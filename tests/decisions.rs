use i3_split::{
    handle_keybind, layout_status, parse_keybind, set_layout, Container, I3Split, KeybindAction,
    KeybindOutcome, Layout, LayoutAction, SplitState,
};

fn leaf(focused: bool) -> Container {
    Container { nodes: Vec::new(), focused, layout: Layout::SplitH, rect: (0, 0, 10, 10) }
}

fn parent(layout: Layout, rect: (i32, i32, i32, i32), nodes: Vec<Container>) -> Container {
    Container { nodes, focused: false, layout, rect }
}

fn root_of(p: Container) -> Container {
    parent(Layout::Output, (0, 0, 3000, 3000), vec![leaf(false), p])
}

#[test]
fn parser_accepts_every_token() {
    let table = [
        ("v", I3Split::Vertical),
        ("vertical", I3Split::Vertical),
        ("h", I3Split::Horizontal),
        ("horizontal", I3Split::Horizontal),
        ("tabbed", I3Split::Tabbed),
        ("stacked", I3Split::Stacked),
        ("stacking", I3Split::Stacked),
        ("t", I3Split::Toggle),
        ("toggle", I3Split::Toggle),
    ];
    for (token, split) in table {
        assert_eq!(I3Split::from_token(token), Ok(split));
        assert_eq!(token.parse::<I3Split>(), Ok(split));
    }
}

#[test]
fn parser_rejects_other_tokens() {
    for token in ["", "V", "vert", "tab", "stack", " v", "v ", "splith", "toggled"] {
        assert!(I3Split::from_token(token).is_err());
    }
}

#[test]
fn toggle_twice_returns_to_horizontal() {
    let mut state = SplitState::new();
    assert_eq!(state.previous(), I3Split::Horizontal);
    let first = state.print_status(I3Split::Toggle);
    assert_eq!(first, " ↓");
    assert_eq!(state.previous(), I3Split::Vertical);
    let second = state.print_status(I3Split::Toggle);
    assert_eq!(second, "→");
    assert_eq!(state.previous(), I3Split::Horizontal);
}

#[test]
fn status_lines_and_store() {
    let mut state = SplitState::new();
    assert_eq!(state.print_status(I3Split::Vertical), " ↓");
    assert_eq!(state.previous(), I3Split::Vertical);
    assert_eq!(state.print_status(I3Split::Tabbed), "t");
    assert_eq!(state.previous(), I3Split::Vertical);
    assert_eq!(state.print_status(I3Split::Stacked), "s");
    assert_eq!(state.previous(), I3Split::Vertical);
    assert_eq!(state.print_status(I3Split::Horizontal), "→");
    assert_eq!(state.previous(), I3Split::Horizontal);
}

#[test]
fn tabbed_parent_is_reported() {
    let tree = root_of(parent(Layout::Tabbed, (0, 0, 1920, 1080), vec![leaf(true)]));
    let action = set_layout(&tree);
    assert_eq!(action, LayoutAction::Report(I3Split::Tabbed));
    assert_eq!(action.command(), None);
    let mut state = SplitState::new();
    assert_eq!(layout_status(&mut state, action), "t");
    assert_eq!(state.previous(), I3Split::Horizontal);
}

#[test]
fn stacked_parent_is_reported() {
    let tree = root_of(parent(Layout::Stacked, (0, 0, 1080, 1920), vec![leaf(false), leaf(true)]));
    let action = set_layout(&tree);
    assert_eq!(action, LayoutAction::Report(I3Split::Stacked));
    assert_eq!(action.command(), None);
    let mut state = SplitState::new();
    assert_eq!(layout_status(&mut state, action), "s");
}

#[test]
fn wide_parent_splits_horizontally() {
    let tree = root_of(parent(Layout::SplitV, (0, 0, 1920, 1080), vec![leaf(true)]));
    let action = set_layout(&tree);
    assert_eq!(action, LayoutAction::Split(I3Split::Horizontal));
    assert_eq!(action.command(), Some("split horizontal"));
    let mut state = SplitState::new();
    state.print_status(I3Split::Vertical);
    assert_eq!(layout_status(&mut state, action), "→");
    assert_eq!(state.previous(), I3Split::Horizontal);
}

#[test]
fn tall_parent_splits_vertically() {
    let tree = root_of(parent(Layout::SplitH, (0, 0, 1080, 1920), vec![leaf(true)]));
    let action = set_layout(&tree);
    assert_eq!(action, LayoutAction::Split(I3Split::Vertical));
    assert_eq!(action.command(), Some("split vertical"));
    let mut state = SplitState::new();
    assert_eq!(layout_status(&mut state, action), " ↓");
    assert_eq!(state.previous(), I3Split::Vertical);
}

#[test]
fn square_parent_splits_vertically() {
    let tree = root_of(parent(Layout::SplitH, (5, 5, 800, 800), vec![leaf(true)]));
    assert_eq!(set_layout(&tree), LayoutAction::Split(I3Split::Vertical));
}

#[test]
fn unfocused_tree_gives_blank_line() {
    let tree = root_of(parent(Layout::Tabbed, (0, 0, 1920, 1080), vec![leaf(false), leaf(false)]));
    let action = set_layout(&tree);
    assert_eq!(action, LayoutAction::Blank);
    assert_eq!(action.command(), None);
    let mut state = SplitState::new();
    state.print_status(I3Split::Vertical);
    assert_eq!(layout_status(&mut state, action), "");
    assert_eq!(state.previous(), I3Split::Vertical);
}

#[test]
fn empty_tree_gives_blank_line() {
    assert_eq!(set_layout(&leaf(false)), LayoutAction::Blank);
    assert_eq!(set_layout(&leaf(true)), LayoutAction::Blank);
}

#[test]
fn search_finds_nearest_parent_of_focus() {
    let inner = parent(Layout::Tabbed, (0, 0, 100, 50), vec![leaf(false), leaf(true)]);
    let middle = parent(Layout::Stacked, (0, 0, 100, 50), vec![leaf(false), inner]);
    let tree = root_of(middle);
    assert_eq!(set_layout(&tree), LayoutAction::Report(I3Split::Tabbed));
}

#[test]
fn search_stops_at_first_match_in_order() {
    let a = parent(Layout::Tabbed, (0, 0, 100, 50), vec![leaf(true)]);
    let b = parent(Layout::Stacked, (0, 0, 100, 50), vec![leaf(true)]);
    let tree = parent(Layout::Output, (0, 0, 100, 100), vec![a, b]);
    assert_eq!(set_layout(&tree), LayoutAction::Report(I3Split::Tabbed));
    let outer = parent(Layout::SplitH, (0, 0, 100, 50), vec![leaf(true), parent(Layout::Tabbed, (0, 0, 1, 1), vec![leaf(true)])]);
    assert_eq!(set_layout(&outer), LayoutAction::Split(I3Split::Horizontal));
}

#[test]
fn keybind_layout_splith() {
    assert_eq!(parse_keybind("layout splith"), KeybindAction::Emit(I3Split::Horizontal));
    let mut state = SplitState::new();
    state.print_status(I3Split::Vertical);
    assert_eq!(handle_keybind(&mut state, "layout splith"), KeybindOutcome::Line("→"));
    assert_eq!(state.previous(), I3Split::Horizontal);
}

#[test]
fn keybind_layout_other_forms() {
    assert_eq!(parse_keybind("layout splitv"), KeybindAction::Emit(I3Split::Vertical));
    assert_eq!(parse_keybind("layout tabbed"), KeybindAction::Emit(I3Split::Tabbed));
    assert_eq!(parse_keybind("layout stacking"), KeybindAction::Emit(I3Split::Stacked));
    assert_eq!(parse_keybind("layout toggle split"), KeybindAction::Emit(I3Split::Toggle));
    assert_eq!(parse_keybind("layout split"), KeybindAction::Emit(I3Split::Toggle));
    assert_eq!(parse_keybind("layout default"), KeybindAction::Ignore);
    assert_eq!(parse_keybind("layout"), KeybindAction::Ignore);
}

#[test]
fn keybind_split_toggle_from_vertical() {
    let mut state = SplitState::new();
    state.print_status(I3Split::Vertical);
    assert_eq!(handle_keybind(&mut state, "split t"), KeybindOutcome::Line("→"));
    assert_eq!(state.previous(), I3Split::Horizontal);
}

#[test]
fn keybind_split_forms() {
    assert_eq!(parse_keybind("split v"), KeybindAction::Emit(I3Split::Vertical));
    assert_eq!(parse_keybind("split horizontal"), KeybindAction::Emit(I3Split::Horizontal));
    assert_eq!(parse_keybind("split"), KeybindAction::Ignore);
    assert_eq!(parse_keybind("split "), KeybindAction::Ignore);
    assert_eq!(parse_keybind("split x"), KeybindAction::Ignore);
    assert_eq!(parse_keybind("split v extra"), KeybindAction::Emit(I3Split::Vertical));
}

#[test]
fn keybind_unknown_verb_is_ignored() {
    let mut state = SplitState::new();
    state.print_status(I3Split::Vertical);
    assert_eq!(handle_keybind(&mut state, "bogus foo"), KeybindOutcome::Nothing);
    assert_eq!(state.previous(), I3Split::Vertical);
    assert_eq!(handle_keybind(&mut state, ""), KeybindOutcome::Nothing);
    assert_eq!(handle_keybind(&mut state, " split v"), KeybindOutcome::Nothing);
}

#[test]
fn keybind_focus_change_asks_for_relayout() {
    let mut state = SplitState::new();
    for command in ["move left", "focus right", "workspace 2", "focus"] {
        assert_eq!(handle_keybind(&mut state, command), KeybindOutcome::Relayout);
    }
    assert_eq!(state.previous(), I3Split::Horizontal);
}
