use frame_relay::frame::{
    frame_post_handler, initial_frame_handler, AspectRatio, Button, ButtonAction,
};

#[test]
fn initial_frame_has_standard_buttons() {
    let f = initial_frame_handler().unwrap();
    assert_eq!(f.image(), "https://example.com/");
    assert_eq!(f.buttons().len(), 2);
    assert_eq!(f.buttons()[0].label(), "post");
    assert_eq!(f.buttons()[0].action(), Some(ButtonAction::Post));
    assert_eq!(f.buttons()[1].label(), "post_redirect");
    assert_eq!(f.buttons()[1].action(), Some(ButtonAction::PostRedirect));
    assert!(f.buttons()[1].target().is_none());
    assert!(f.post_url().is_none());
    assert!(f.state().is_none());
    assert_eq!(f.version(), "vNext");
}

#[test]
fn post_frame_matches_initial() {
    let f = frame_post_handler().unwrap();
    assert_eq!(f.image(), "https://example.com/");
    assert_eq!(f.buttons().len(), 2);
    assert_eq!(f.version(), "vNext");
}

#[test]
fn defaults() {
    assert_eq!(AspectRatio::default(), AspectRatio::Ratio1dot91x1);
    assert_eq!(ButtonAction::default(), ButtonAction::Post);
    let b = Button::default();
    assert_eq!(b.label(), "");
    assert_eq!(b.action(), None);
    assert!(b.post_url().is_none());
}
