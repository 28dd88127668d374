use yew_scroll::controller::activate;
use yew_scroll::controller::VisibilityController;
use yew_scroll::controller::DEFAULT_THRESHOLD;

#[test]
fn mount_starts_hidden_with_live_subscription() {
    let c = VisibilityController::mount(DEFAULT_THRESHOLD);
    assert!(!c.is_visible());
    assert!(c.is_mounted());
    assert_eq!(c.threshold(), 500);
    assert_eq!(c.current_subscription(), Some(0));
}

#[test]
fn default_threshold_scenario() {
    let mut c = VisibilityController::mount(DEFAULT_THRESHOLD);
    let sub = c.current_subscription().unwrap();
    c.deliver_scroll(sub, 0);
    assert!(!c.is_visible());
    c.deliver_scroll(sub, 501);
    assert!(c.is_visible());
}

#[test]
fn zero_threshold_shows_immediately() {
    let mut c = VisibilityController::mount(0);
    let sub = c.current_subscription().unwrap();
    c.deliver_scroll(sub, 1);
    assert!(c.is_visible());
}

#[test]
fn rise_then_fall_hides_again() {
    let mut c = VisibilityController::mount(500);
    let sub = c.current_subscription().unwrap();
    c.deliver_scroll(sub, 600);
    assert!(c.is_visible());
    c.deliver_scroll(sub, 400);
    assert!(!c.is_visible());
}

#[test]
fn activation_requests_origin_then_scroll_home_hides() {
    let mut c = VisibilityController::mount(500);
    let sub = c.current_subscription().unwrap();
    c.deliver_scroll(sub, 800);
    assert!(c.is_visible());
    let req = activate();
    assert_eq!(req.x, 0);
    assert_eq!(req.y, 0);
    c.deliver_scroll(sub, 0);
    assert!(!c.is_visible());
}

#[test]
fn stale_listener_after_unmount_is_inert() {
    let mut c = VisibilityController::mount(500);
    let sub = c.current_subscription().unwrap();
    c.deliver_scroll(sub, 900);
    assert!(c.is_visible());
    c.unmount();
    assert!(!c.is_mounted());
    assert_eq!(c.current_subscription(), None);
    c.deliver_scroll(sub, 0);
    assert!(c.is_visible());
    assert_eq!(c.threshold(), 500);
}

#[test]
fn boundary_offset_equal_threshold_stays_hidden() {
    let mut c = VisibilityController::mount(500);
    let sub = c.current_subscription().unwrap();
    c.deliver_scroll(sub, 500);
    assert!(!c.is_visible());
    c.deliver_scroll(sub, 501);
    assert!(c.is_visible());
    c.deliver_scroll(sub, 500);
    assert!(!c.is_visible());
}

#[test]
fn visibility_strictly_above_threshold() {
    let pairs: Vec<(u64, u64, bool)> = vec![
        (0, 0, false),
        (0, 1, true),
        (500, 499, false),
        (500, 500, false),
        (500, 501, true),
        (u64::MAX, u64::MAX, false),
        (u64::MAX - 1, u64::MAX, true),
    ];
    for (threshold, offset, expected) in pairs {
        let mut c = VisibilityController::mount(threshold);
        let sub = c.current_subscription().unwrap();
        c.deliver_scroll(sub, offset);
        assert_eq!(c.is_visible(), expected);
    }
}

#[test]
fn repeated_delivery_is_idempotent() {
    let mut c = VisibilityController::mount(300);
    let sub = c.current_subscription().unwrap();
    c.deliver_scroll(sub, 350);
    let visible_once = c.is_visible();
    let threshold_once = c.threshold();
    let sub_once = c.current_subscription();
    c.deliver_scroll(sub, 350);
    assert_eq!(c.is_visible(), visible_once);
    assert_eq!(c.threshold(), threshold_once);
    assert_eq!(c.current_subscription(), sub_once);
}

#[test]
fn reconfigure_replaces_subscription() {
    let mut c = VisibilityController::mount(500);
    let old_sub = c.current_subscription().unwrap();
    c.deliver_scroll(old_sub, 700);
    assert!(c.is_visible());

    c.set_threshold(1000);
    assert!(c.is_mounted());
    assert_eq!(c.threshold(), 1000);
    let new_sub = c.current_subscription().unwrap();
    assert_ne!(old_sub, new_sub);

    // The disposed subscription no longer governs anything.
    c.deliver_scroll(old_sub, 5000);
    assert!(c.is_visible());

    // Only the newest threshold governs subsequent visibility.
    c.deliver_scroll(new_sub, 700);
    assert!(!c.is_visible());
    c.deliver_scroll(new_sub, 1001);
    assert!(c.is_visible());
}

#[test]
fn activation_is_origin_regardless_of_state() {
    let hidden = VisibilityController::mount(500);
    assert!(!hidden.is_visible());
    let req_hidden = activate();
    assert_eq!((req_hidden.x, req_hidden.y), (0, 0));

    let mut shown = VisibilityController::mount(500);
    let sub = shown.current_subscription().unwrap();
    shown.deliver_scroll(sub, 600);
    assert!(shown.is_visible());
    let req_shown = activate();
    assert_eq!((req_shown.x, req_shown.y), (0, 0));
}

#[test]
fn unavailable_offset_reading_counts_as_zero() {
    let mut c = VisibilityController::mount(0);
    let sub = c.current_subscription().unwrap();
    c.deliver_scroll_signal(sub, Some(5));
    assert!(c.is_visible());
    c.deliver_scroll_signal(sub, None);
    assert!(!c.is_visible());
}

#[test]
fn delivery_on_unknown_subscription_changes_nothing() {
    let mut c = VisibilityController::mount(100);
    let sub = c.current_subscription().unwrap();
    c.deliver_scroll(sub + 7, 900);
    assert!(!c.is_visible());
    c.deliver_scroll(sub, 900);
    assert!(c.is_visible());
}
