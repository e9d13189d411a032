use topgrade::repos::normalize_root;
use topgrade::repos::RepositorySet;

#[test]
fn trailing_slash_spellings_are_one_repository() {
    let mut set = RepositorySet::new();
    set.insert(Some("/home/u/.vim".to_string()));
    set.insert(Some("/home/u/.vim/".to_string()));
    assert_eq!(set.len(), 1);
    assert_eq!(set.repositories()[0], "/home/u/.vim".to_string());
}

#[test]
fn duplicate_roots_are_stored_once() {
    let mut set = RepositorySet::new();
    set.insert(Some("/home/u/.emacs.d".to_string()));
    set.insert(Some("/home/u/.vim".to_string()));
    set.insert(Some("/home/u/.emacs.d".to_string()));
    set.insert(Some("/home/u/.emacs.d//".to_string()));
    assert_eq!(set.len(), 2);
}

#[test]
fn unresolved_candidate_is_a_no_op() {
    let mut set = RepositorySet::new();
    set.insert(None);
    assert_eq!(set.len(), 0);
    set.insert(Some("/home/u/.tmux".to_string()));
    set.insert(None);
    assert_eq!(set.len(), 1);
}

#[test]
fn insertion_order_is_kept() {
    let mut set = RepositorySet::new();
    set.insert(Some("/b".to_string()));
    set.insert(Some("/a".to_string()));
    set.insert(Some("/c".to_string()));
    let stored = set.repositories();
    assert_eq!(stored.len(), 3);
    assert_eq!(stored[0], "/b".to_string());
    assert_eq!(stored[1], "/a".to_string());
    assert_eq!(stored[2], "/c".to_string());
}

#[test]
fn normalize_strips_trailing_separators() {
    assert_eq!(normalize_root("/home/u/.vim/"), "/home/u/.vim".to_string());
    assert_eq!(normalize_root("/home/u/.vim///"), "/home/u/.vim".to_string());
    assert_eq!(normalize_root("/home/u/.vim"), "/home/u/.vim".to_string());
}

#[test]
fn normalize_keeps_root_and_empty() {
    assert_eq!(normalize_root("/"), "/".to_string());
    assert_eq!(normalize_root(""), "".to_string());
    assert_eq!(normalize_root("//"), "/".to_string());
}
