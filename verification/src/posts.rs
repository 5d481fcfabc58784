//! The post board the authentication core gates: content items with a
//! toggleable reaction value. Only the reaction and creation rules live
//! here; rendering and persistence sit outside.

use vstd::prelude::*;
use vstd::string::StringSliceAdditionalSpecFns;

use crate::fresh_id;

verus! {

broadcast use vstd::slice::group_slice_axioms;

/// A content item with its reaction state.
pub struct Post {
    pub id: u128,
    pub content: String,
    pub image_path: Option<String>,
    pub likes: i32,
}

/// The two reactions a client can apply to a post.
#[derive(Clone, Copy, Debug, PartialEq, Eq, Structural)]
pub enum PostAction {
    Like,
    Dislike,
}

/// The errors of the post board.
#[derive(Clone, Copy, Debug, PartialEq, Eq, Structural)]
pub enum PostError {
    InvalidText,
    NotFound,
}

/// A reaction value is one of -1, 0 and 1.
pub open spec fn reaction_ok(p: Post) -> bool {
    -1 <= p.likes <= 1
}

/// Toggle semantics: applying a reaction that is already set clears it;
/// applying the other reaction replaces it.
pub open spec fn toggle_reaction(current: int, action: PostAction) -> int {
    match action {
        PostAction::Like => if current == 1 {
            0int
        } else {
            1int
        },
        PostAction::Dislike => if current == -1 {
            0int
        } else {
            (-1)
        },
    }
}

/// Post text must be 1 to 200 bytes long.
pub open spec fn post_text_ok(text: &str) -> bool {
    1 <= text.spec_bytes().len() <= 200
}

/// The in-memory post list.
pub struct PostBoard {
    pub posts: Vec<Post>,
}

impl PostBoard {
    /// Every reaction value is in range.
    pub open spec fn wf(self) -> bool {
        forall|i: int| 0 <= i < self.posts@.len() ==> reaction_ok(#[trigger] self.posts@[i])
    }

    /// An empty board.
    pub fn new() -> (r: PostBoard)
        ensures
            r.posts@ == Seq::<Post>::empty(),
            r.wf(),
    {
        PostBoard { posts: Vec::new() }
    }

    /// Appends a new post with no reaction under a fresh identifier, after
    /// checking the text length.
    pub fn create_post(&mut self, content: &str, image_path: Option<&str>) -> (r: Result<
        u128,
        PostError,
    >)
        requires
            old(self).wf(),
        ensures
            final(self).wf(),
            r == Err::<u128, PostError>(PostError::InvalidText) <==> !post_text_ok(content),
            r is Err ==> r == Err::<u128, PostError>(PostError::InvalidText) && final(self).posts@
                == old(self).posts@,
            r matches Ok(id) ==> {
                let added = final(self).posts@.last();
                &&& final(self).posts@ == old(self).posts@.push(added)
                &&& added.id == id
                &&& added.content@ == content@
                &&& match image_path {
                    Some(path) => added.image_path matches Some(stored) && stored@ == path@,
                    None => added.image_path is None,
                }
                &&& added.likes == 0
            },
    {
        let byte_len = content.as_bytes().len();
        if byte_len < 1 || byte_len > 200 {
            return Err(PostError::InvalidText);
        }
        let id = fresh_id();
        let stored_path = match image_path {
            Some(path) => Some(path.to_owned()),
            None => None,
        };
        let post = Post { id, content: content.to_owned(), image_path: stored_path, likes: 0 };
        self.posts.push(post);
        Ok(id)
    }

    /// Applies a reaction to the first post with the given identifier,
    /// toggling its reaction value.
    pub fn like_post(&mut self, post_id: u128, action: PostAction) -> (r: Result<(), PostError>)
        requires
            old(self).wf(),
        ensures
            final(self).wf(),
            r == Err::<(), PostError>(PostError::NotFound) <==> (forall|i: int|
                0 <= i < old(self).posts@.len() ==> (#[trigger] old(self).posts@[i]).id != post_id),
            r is Err ==> r == Err::<(), PostError>(PostError::NotFound) && final(self).posts@
                == old(self).posts@,
            r is Ok ==> exists|i: int|
                {
                    &&& 0 <= i < old(self).posts@.len()
                    &&& (#[trigger] old(self).posts@[i]).id == post_id
                    &&& (forall|j: int| 0 <= j < i ==> old(self).posts@[j].id != post_id)
                    &&& final(self).posts@ == old(self).posts@.update(
                        i,
                        Post {
                            likes: toggle_reaction(old(self).posts@[i].likes as int, action) as i32,
                            ..old(self).posts@[i]
                        },
                    )
                },
    {
        let n = self.posts.len();
        let mut i: usize = 0;
        while i < n
            invariant
                0 <= i <= n,
                n == self.posts@.len(),
                old(self).wf(),
                *self == *old(self),
                forall|j: int| 0 <= j < i ==> old(self).posts@[j].id != post_id,
            decreases n - i,
        {
            if self.posts[i].id == post_id {
                let current = self.posts[i].likes;
                let updated: i32 = match action {
                    PostAction::Like => if current == 1 {
                        0
                    } else {
                        1
                    },
                    PostAction::Dislike => if current == -1 {
                        0
                    } else {
                        -1
                    },
                };
                let post = Post {
                    id: self.posts[i].id,
                    content: self.posts[i].content.clone(),
                    image_path: match &self.posts[i].image_path {
                        Some(path) => Some(path.clone()),
                        None => None,
                    },
                    likes: updated,
                };
                self.posts[i] = post;
                proof {
                    assert(final(self).posts@ == old(self).posts@.update(
                        i as int,
                        Post {
                            likes: toggle_reaction(
                                old(self).posts@[i as int].likes as int,
                                action,
                            ) as i32,
                            ..old(self).posts@[i as int]
                        },
                    ));
                }
                return Ok(());
            }
            i = i + 1;
        }
        Err(PostError::NotFound)
    }
}

/// Applying "like" to a post that is not already liked and then "like"
/// again returns the reaction value to zero.
pub proof fn lemma_like_twice_clears(current: int)
    requires
        -1 <= current <= 1,
        current != 1,
    ensures
        toggle_reaction(toggle_reaction(current, PostAction::Like), PostAction::Like) == 0,
{
}

/// Applying "like" and then "dislike" always leaves the reaction value at
/// minus one, from any starting value.
pub proof fn lemma_like_then_dislike(current: int)
    requires
        -1 <= current <= 1,
    ensures
        toggle_reaction(toggle_reaction(current, PostAction::Like), PostAction::Dislike) == -1,
{
}

} // verus!

