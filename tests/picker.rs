use walt::catalog::{collect_paths, Wallpaper};
use walt::cli::{parse_args, platform_for_session, same_text, wallpapers_dir, CliAction};
use walt::selection::{Nav, Wallpapers};
use walt::setters::{set_random_wallpaper, set_wallpaper, setter_program, Platform, SetterCommand, WallpaperError};
use walt::tui::{key_action, Action, App, Key, Outcome};

fn paths(items: &[&str]) -> Vec<String> {
    items.iter().map(|s| s.to_string()).collect()
}

fn args(items: &[&str]) -> Vec<String> {
    paths(items)
}

fn expect_apply(out: Outcome) -> SetterCommand {
    match out {
        Outcome::Apply(cmd) => cmd,
        other => panic!("expected a command, got {:?}", other),
    }
}

#[test]
fn display_name_takes_text_after_last_slash() {
    let w = Wallpaper::new("/home/u/Pictures/Wallpapers/sea.png".to_string());
    assert_eq!(w.name(), "sea.png");
    assert_eq!(w.path(), "/home/u/Pictures/Wallpapers/sea.png");
}

#[test]
fn display_name_without_slash_is_whole_path() {
    let w = Wallpaper::new("noslashes.png".to_string());
    assert_eq!(w.name(), "noslashes.png");
}

#[test]
fn display_name_of_trailing_slash_is_empty() {
    assert_eq!(Wallpaper::new("dir/".to_string()).name(), "");
    assert_eq!(Wallpaper::new("".to_string()).name(), "");
}

#[test]
fn display_name_handles_non_ascii() {
    assert_eq!(Wallpaper::new("/bilder/über/möwe.jpg".to_string()).name(), "möwe.jpg");
}

#[test]
fn collect_paths_skips_unreadable_entry() {
    let entries = vec![
        Some("/w/a.png".to_string()),
        Some("/w/b.png".to_string()),
        None,
        Some("/w/c.png".to_string()),
    ];
    let r = collect_paths(entries);
    assert_eq!(r, paths(&["/w/a.png", "/w/b.png", "/w/c.png"]));
}

#[test]
fn collect_paths_of_nothing_is_empty() {
    assert!(collect_paths(vec![]).is_empty());
    assert!(collect_paths(vec![None, None]).is_empty());
}

#[test]
fn new_catalog_selects_first_item() {
    let w = Wallpapers::new(paths(&["/w/a.png", "/w/b.png"]));
    assert_eq!(w.len(), 2);
    assert_eq!(w.selected(), Some(0));
    assert_eq!(w.get(1).name(), "b.png");
}

#[test]
fn empty_catalog_selects_nothing() {
    let mut w = Wallpapers::new(vec![]);
    assert_eq!(w.selected(), None);
    w.select_next();
    w.select_previous();
    w.select_first();
    w.select_last();
    assert_eq!(w.selected(), None);
}

#[test]
fn previous_from_first_stays_at_zero() {
    let mut w = Wallpapers::new(paths(&["a", "b", "c"]));
    w.select_next();
    w.select_first();
    for _ in 0..5 {
        w.select_previous();
        assert_eq!(w.selected(), Some(0));
    }
}

#[test]
fn next_from_last_stays_at_end() {
    let mut w = Wallpapers::new(paths(&["a", "b", "c"]));
    w.select_last();
    for _ in 0..5 {
        w.select_next();
        assert_eq!(w.selected(), Some(2));
    }
}

#[test]
fn navigation_stays_in_range() {
    let mut w = Wallpapers::new(paths(&["a", "b", "c", "d"]));
    let moves = [
        Nav::Next, Nav::Next, Nav::Last, Nav::Next, Nav::Previous, Nav::First, Nav::Previous,
        Nav::Next, Nav::Next, Nav::Next, Nav::Next, Nav::Next,
    ];
    let expected = [1, 2, 3, 3, 2, 0, 0, 1, 2, 3, 3, 3];
    for (nav, want) in moves.iter().zip(expected.iter()) {
        w.navigate(*nav);
        let i = w.selected().unwrap();
        assert!(i < w.len());
        assert_eq!(i, *want);
    }
}

#[test]
fn wayland_command_uses_transition() {
    let cmd = set_wallpaper("/w/sea.png", Platform::Wayland);
    assert_eq!(cmd.program, "swww");
    assert_eq!(cmd.args, args(&["img", "/w/sea.png", "--transition-step", "10"]));
}

#[test]
fn x11_command_scales_background() {
    let cmd = set_wallpaper("/w/sea.png", Platform::X11);
    assert_eq!(cmd.program, "feh");
    assert_eq!(cmd.args, args(&["--bg-scale", "/w/sea.png"]));
}

#[test]
fn setter_program_per_platform() {
    assert_eq!(setter_program(Platform::Wayland), "swww");
    assert_eq!(setter_program(Platform::X11), "feh");
}

#[test]
fn random_pick_on_empty_list_fails() {
    assert_eq!(
        set_random_wallpaper(&vec![], Platform::X11).err(),
        Some(WallpaperError::EmptyCatalog)
    );
}

#[test]
fn random_pick_applies_drawn_item() {
    let list = paths(&["a.png", "b.png", "c.png"]);
    for _ in 0..20 {
        let (i, cmd) = set_random_wallpaper(&list, Platform::X11).unwrap();
        assert!(i < 3);
        assert_eq!(cmd.args, args(&["--bg-scale", list[i].as_str()]));
    }
}

#[test]
fn select_random_on_empty_catalog_reports_empty() {
    let mut app = App::new(vec![], Platform::Wayland);
    assert_eq!(app.select_and_set_random().err(), Some(WallpaperError::EmptyCatalog));
    assert_eq!(app.wallpapers().selected(), None);
    match app.handle_key(Key::Char('r'), true) {
        Outcome::Failed(e) => assert_eq!(e, WallpaperError::EmptyCatalog),
        other => panic!("expected a failure, got {:?}", other),
    }
    assert_eq!(app.wallpapers().selected(), None);
    assert!(!app.should_exit());
}

#[test]
fn select_random_syncs_selection_with_command() {
    let mut app = App::new(paths(&["a.png", "b.png", "c.png"]), Platform::Wayland);
    for _ in 0..20 {
        let cmd = expect_apply(app.handle_key(Key::Char('r'), true));
        let i = app.wallpapers().selected().unwrap();
        assert!(i < 3);
        assert_eq!(cmd.args[1], app.wallpapers().get(i).path());
    }
}

#[test]
fn commit_applies_selected_item() {
    let mut app = App::new(paths(&["a.png", "b.png", "c.png"]), Platform::Wayland);
    app.handle_key(Key::Down, true);
    assert_eq!(app.wallpapers().selected(), Some(1));
    let cmd = expect_apply(app.handle_key(Key::Enter, true));
    assert_eq!(cmd.program, "swww");
    assert_eq!(cmd.args, args(&["img", "b.png", "--transition-step", "10"]));
    assert_eq!(app.wallpapers().selected(), Some(1));

    let mut app = App::new(paths(&["a.png", "b.png", "c.png"]), Platform::X11);
    app.handle_key(Key::Char('j'), true);
    let cmd = app.set_wallpaper().unwrap();
    assert_eq!(cmd.program, "feh");
    assert_eq!(cmd.args, args(&["--bg-scale", "b.png"]));
}

#[test]
fn commit_on_empty_catalog_does_nothing() {
    let mut app = App::new(vec![], Platform::X11);
    assert!(app.set_wallpaper().is_none());
    assert!(matches!(app.handle_key(Key::Enter, true), Outcome::Idle));
}

#[test]
fn select_and_set_picks_given_index() {
    let mut app = App::new(paths(&["a.png", "b.png", "c.png"]), Platform::X11);
    let cmd = app.select_and_set(2);
    assert_eq!(app.wallpapers().selected(), Some(2));
    assert_eq!(cmd.args, args(&["--bg-scale", "c.png"]));
}

#[test]
fn quit_key_exits_whatever_the_selection() {
    for keys in [vec![], vec![Key::Char('G')], vec![Key::Down, Key::Down]] {
        for quit in [Key::Char('q'), Key::Esc] {
            let mut app = App::new(paths(&["a", "b", "c"]), Platform::X11);
            for k in &keys {
                app.handle_key(*k, true);
            }
            let before = app.wallpapers().selected();
            assert!(matches!(app.handle_key(quit, true), Outcome::Idle));
            assert!(app.should_exit());
            assert_eq!(app.wallpapers().selected(), before);
        }
    }
    let mut empty = App::new(vec![], Platform::X11);
    empty.handle_key(Key::Char('q'), true);
    assert!(empty.should_exit());
}

#[test]
fn keys_move_the_cursor() {
    let mut app = App::new(paths(&["a", "b", "c"]), Platform::X11);
    app.handle_key(Key::Char('G'), true);
    assert_eq!(app.wallpapers().selected(), Some(2));
    app.handle_key(Key::Char('k'), true);
    assert_eq!(app.wallpapers().selected(), Some(1));
    app.handle_key(Key::Up, true);
    assert_eq!(app.wallpapers().selected(), Some(0));
    app.handle_key(Key::Char('j'), true);
    assert_eq!(app.wallpapers().selected(), Some(1));
    app.handle_key(Key::Char('g'), true);
    assert_eq!(app.wallpapers().selected(), Some(0));
    assert!(!app.should_exit());
}

#[test]
fn released_and_unbound_keys_are_ignored() {
    let mut app = App::new(paths(&["a", "b", "c"]), Platform::X11);
    assert!(matches!(app.handle_key(Key::Down, false), Outcome::Idle));
    assert!(matches!(app.handle_key(Key::Char('q'), false), Outcome::Idle));
    assert!(matches!(app.handle_key(Key::Char('x'), true), Outcome::Idle));
    assert!(matches!(app.handle_key(Key::Other, true), Outcome::Idle));
    assert_eq!(app.wallpapers().selected(), Some(0));
    assert!(!app.should_exit());
}

#[test]
fn key_bindings() {
    assert_eq!(key_action(Key::Char('q')), Some(Action::Quit));
    assert_eq!(key_action(Key::Esc), Some(Action::Quit));
    assert_eq!(key_action(Key::Down), Some(Action::Move(Nav::Next)));
    assert_eq!(key_action(Key::Char('k')), Some(Action::Move(Nav::Previous)));
    assert_eq!(key_action(Key::Char('g')), Some(Action::Move(Nav::First)));
    assert_eq!(key_action(Key::Char('G')), Some(Action::Move(Nav::Last)));
    assert_eq!(key_action(Key::Char('r')), Some(Action::Random));
    assert_eq!(key_action(Key::Enter), Some(Action::Commit));
    assert_eq!(key_action(Key::Char('Q')), None);
}

#[test]
fn arguments_are_parsed() {
    assert_eq!(parse_args(&args(&["walt"])), CliAction::RunTui);
    assert_eq!(parse_args(&args(&[])), CliAction::RunTui);
    assert_eq!(parse_args(&args(&["walt", "-nt"])), CliAction::NoTui);
    assert_eq!(parse_args(&args(&["walt", "--no-tui"])), CliAction::NoTui);
    assert_eq!(parse_args(&args(&["walt", "-v"])), CliAction::PrintVersion);
    assert_eq!(parse_args(&args(&["walt", "--version"])), CliAction::PrintVersion);
    assert_eq!(parse_args(&args(&["walt", "-h"])), CliAction::PrintHelp);
    assert_eq!(parse_args(&args(&["walt", "--help"])), CliAction::PrintHelp);
    assert_eq!(parse_args(&args(&["walt", "--nope"])), CliAction::InvalidOption);
    assert_eq!(parse_args(&args(&["walt", "-h", "-v"])), CliAction::TooManyArguments);
}

#[test]
fn session_type_selects_platform() {
    assert_eq!(platform_for_session(Some("wayland")), Platform::Wayland);
    assert_eq!(platform_for_session(Some("x11")), Platform::X11);
    assert_eq!(platform_for_session(Some("tty")), Platform::X11);
    assert_eq!(platform_for_session(None), Platform::X11);
}

#[test]
fn wallpapers_dir_under_home() {
    assert_eq!(wallpapers_dir("/home/u"), "/home/u/Pictures/Wallpapers");
}

#[test]
fn same_text_compares_characters() {
    assert!(same_text("abc", "abc"));
    assert!(!same_text("abc", "abd"));
    assert!(!same_text("abc", "ab"));
    assert!(same_text("", ""));
}
