use tetrust::menu::{Menu, Options};

#[test]
fn fresh_menu_hovers_the_first_entry() {
    let menu = Menu::new();
    assert_eq!(menu.hovered(), Options::New);
    assert_eq!(menu.selected(), Options::Unselected);
    assert_eq!(menu.options(), [Options::New, Options::Scores, Options::Quit]);
}

#[test]
fn hovering_stops_at_both_ends() {
    let mut menu = Menu::new();
    menu.move_up();
    assert_eq!(menu.hovered(), Options::New);
    menu.move_down();
    assert_eq!(menu.hovered(), Options::Scores);
    menu.move_down();
    assert_eq!(menu.hovered(), Options::Quit);
    menu.move_down();
    assert_eq!(menu.hovered(), Options::Quit);
    menu.move_up();
    assert_eq!(menu.hovered(), Options::Scores);
    menu.move_up();
    assert_eq!(menu.hovered(), Options::New);
}

#[test]
fn select_commits_the_hovered_entry() {
    let mut menu = Menu::new();
    menu.move_down();
    menu.select();
    assert_eq!(menu.selected(), Options::Scores);
    assert_eq!(menu.hovered(), Options::Scores);
}

#[test]
fn backing_out_of_scores_clears_the_selection() {
    let mut menu = Menu::new();
    menu.move_down();
    menu.select();
    assert_eq!(menu.selected(), Options::Scores);
    menu.back();
    assert_eq!(menu.selected(), Options::Unselected);
}

#[test]
fn backing_out_elsewhere_quits() {
    let mut menu = Menu::new();
    menu.select();
    assert_eq!(menu.selected(), Options::New);
    menu.back();
    assert_eq!(menu.selected(), Options::Quit);
}

#[test]
fn entry_labels_are_fixed() {
    assert_eq!(Options::Unselected.as_str(), "NONE");
    assert_eq!(Options::New.as_str(), "New Game");
    assert_eq!(Options::Scores.as_str(), "Scores (WIP)");
    assert_eq!(Options::Quit.as_str(), "Quit");
}
