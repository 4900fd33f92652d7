use yozefu_tui::key::ScrollCommand;
use yozefu_tui::scroll::ScrollState;

#[test]
fn next_line_clamps_at_content_bound() {
    let mut scroll = ScrollState::new();
    for _ in 0..30 {
        scroll.scroll_to_next_line();
    }
    assert_eq!(scroll.effective(45, 20), 25);
    let bar = scroll.render(45, 20);
    assert_eq!(bar.position, 25);
    assert_eq!(bar.content_length, 25);
    for _ in 0..10 {
        scroll.scroll_to_next_line();
    }
    assert_eq!(scroll.effective(45, 20), 25);
    assert_eq!(scroll.render(45, 20).position, 25);
}

#[test]
fn previous_line_from_top_stays_at_top() {
    let mut scroll = ScrollState::new();
    scroll.scroll_to_next_line();
    scroll.scroll_to_next_line();
    scroll.scroll_to_top();
    let at_top = scroll.effective(100, 10);
    for _ in 0..7 {
        scroll.scroll_to_previous_line();
    }
    assert_eq!(scroll.effective(100, 10), at_top);
    assert_eq!(scroll.value(), 0);
}

#[test]
fn bottom_follows_new_data() {
    let mut scroll = ScrollState::new();
    scroll.scroll_to_bottom();
    assert_eq!(scroll.render(30, 20).position, 10);
    assert_eq!(scroll.render(50, 20).position, 30);
    assert_eq!(scroll.effective(50, 20), 30);
}

#[test]
fn no_scrollbar_when_content_fits() {
    let mut scroll = ScrollState::new();
    for _ in 0..5 {
        scroll.scroll_to_next_line();
    }
    let bar = scroll.render(10, 20);
    assert_eq!(bar.content_length, 0);
    assert_eq!(bar.position, 0);
    scroll.scroll_to_bottom();
    assert_eq!(scroll.render(20, 20).content_length, 0);
}

#[test]
fn effective_offset_stays_within_bounds() {
    let commands = [
        ScrollCommand::NextLine,
        ScrollCommand::Bottom,
        ScrollCommand::PreviousLine,
        ScrollCommand::NextLine,
        ScrollCommand::NextLine,
        ScrollCommand::Top,
        ScrollCommand::PreviousLine,
        ScrollCommand::Bottom,
    ];
    let mut scroll = ScrollState::new();
    for command in commands {
        scroll.apply(command);
        for (length, height) in [(0usize, 0usize), (5, 10), (40, 10), (11, 10)] {
            let e = scroll.effective(length, height);
            assert!(e <= length.saturating_sub(height));
        }
    }
}

#[test]
fn previous_line_after_bottom_leaves_the_pin() {
    let mut scroll = ScrollState::new();
    scroll.scroll_to_bottom();
    scroll.render(40, 10);
    scroll.scroll_to_previous_line();
    assert_eq!(scroll.effective(40, 10), 29);
    assert_eq!(scroll.effective(100, 10), 29);
}

#[test]
fn reset_goes_back_to_first_line() {
    let mut scroll = ScrollState::default();
    scroll.scroll_to_next_line();
    scroll.scroll_to_next_line();
    scroll.reset();
    assert_eq!(scroll.value(), 0);
    assert_eq!(scroll.effective(100, 10), 0);
}
