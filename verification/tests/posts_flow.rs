use passkey_core::posts::{PostAction, PostBoard, PostError};

#[test]
fn create_post_validates_text() {
    let mut board = PostBoard::new();
    assert_eq!(board.create_post("", None), Err(PostError::InvalidText));
    assert_eq!(board.create_post(&"x".repeat(201), None), Err(PostError::InvalidText));
    assert!(board.posts.is_empty());
    let id = board.create_post("hello world", Some("uploads/cat.jpg")).expect("valid post");
    assert_eq!(board.posts.len(), 1);
    assert_eq!(board.posts[0].id, id);
    assert_eq!(board.posts[0].content, "hello world");
    assert_eq!(board.posts[0].image_path.as_deref(), Some("uploads/cat.jpg"));
    assert_eq!(board.posts[0].likes, 0);
    let long_ok = "y".repeat(200);
    board.create_post(&long_ok, None).expect("200 bytes is allowed");
}

#[test]
fn like_twice_returns_to_zero() {
    let mut board = PostBoard::new();
    let id = board.create_post("toggling", None).expect("post");
    board.like_post(id, PostAction::Like).expect("first like");
    assert_eq!(board.posts[0].likes, 1);
    board.like_post(id, PostAction::Like).expect("second like");
    assert_eq!(board.posts[0].likes, 0);
}

#[test]
fn like_then_dislike_is_minus_one() {
    let mut board = PostBoard::new();
    let id = board.create_post("toggling", None).expect("post");
    board.like_post(id, PostAction::Like).expect("like");
    board.like_post(id, PostAction::Dislike).expect("dislike");
    assert_eq!(board.posts[0].likes, -1);
}

#[test]
fn dislike_twice_returns_to_zero() {
    let mut board = PostBoard::new();
    let id = board.create_post("toggling", None).expect("post");
    board.like_post(id, PostAction::Dislike).expect("first dislike");
    assert_eq!(board.posts[0].likes, -1);
    board.like_post(id, PostAction::Dislike).expect("second dislike");
    assert_eq!(board.posts[0].likes, 0);
}

#[test]
fn like_unknown_post_is_not_found() {
    let mut board = PostBoard::new();
    board.create_post("present", None).expect("post");
    assert_eq!(board.like_post(424242, PostAction::Like), Err(PostError::NotFound));
    assert_eq!(board.posts[0].likes, 0);
}
