use theme_manager::context::{Context, DataRepo, MarkerOp};

fn repo() -> DataRepo {
    DataRepo::new("/home/u/.local/share/theme-manager".to_string(), "/home/u/.local/share/theme-manager/theme.lock".to_string())
}

fn carry_out(marker: bool, op: MarkerOp) -> bool {
    match op {
        MarkerOp::Keep => marker,
        MarkerOp::Create => true,
        MarkerOp::Remove => false,
    }
}

#[test]
fn locking_creates_the_marker_once() {
    let repo = repo();
    let first = repo.lock_theme("night", false);
    assert_eq!(first, MarkerOp::Create);
    let marker = carry_out(false, first);
    assert!(marker);
    let second = repo.lock_theme("night", marker);
    assert_eq!(second, MarkerOp::Keep);
    assert!(carry_out(marker, second));
}

#[test]
fn unlocking_an_absent_marker_does_nothing() {
    let repo = repo();
    assert_eq!(repo.unlock_theme(false), MarkerOp::Keep);
    let first = repo.unlock_theme(true);
    assert_eq!(first, MarkerOp::Remove);
    let marker = carry_out(true, first);
    assert!(!marker);
    assert_eq!(repo.unlock_theme(marker), MarkerOp::Keep);
}

#[test]
fn lock_does_not_depend_on_the_theme() {
    let repo = repo();
    for name in ["", "night", "unsupported"] {
        assert_eq!(repo.lock_theme(name, true), MarkerOp::Keep);
        assert_eq!(repo.lock_theme(name, false), MarkerOp::Create);
    }
}

#[test]
fn lock_then_unlock_returns_to_unlocked() {
    let repo = repo();
    let mut marker = false;
    marker = carry_out(marker, repo.lock_theme("day", marker));
    marker = carry_out(marker, repo.lock_theme("day", marker));
    assert!(marker);
    marker = carry_out(marker, repo.unlock_theme(marker));
    marker = carry_out(marker, repo.unlock_theme(marker));
    assert!(!marker);
}

#[test]
fn context_holds_the_repository() {
    let ctx = Context::new(repo());
    assert_eq!(ctx.data, repo());
    assert_eq!(ctx.data.theme_lock_file, "/home/u/.local/share/theme-manager/theme.lock");
    assert_eq!(ctx.data.app_data_dir, "/home/u/.local/share/theme-manager");
}
