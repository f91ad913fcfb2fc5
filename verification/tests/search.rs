use wayclip_daemon::discovery::Discovery;
use wayclip_daemon::search::{DirEntry, EntryKind, SearchStep};

fn entry(key: u64, name: &str, kind: EntryKind) -> DirEntry {
    DirEntry { key, name: name.to_string(), kind }
}

fn list(dir: u64) -> Vec<DirEntry> {
    match dir {
        1 => vec![
            entry(10, "link", EntryKind::Symlink),
            entry(11, "a", EntryKind::Directory),
            entry(12, "t.vdf", EntryKind::File),
        ],
        11 => vec![entry(20, "other", EntryKind::File), entry(21, "b", EntryKind::Directory)],
        21 => vec![entry(30, "t.vdf", EntryKind::File)],
        10 => vec![entry(99, "t.vdf", EntryKind::File)],
        2 => vec![entry(40, "t.vdf", EntryKind::Other), entry(41, "t.vdf", EntryKind::File)],
        _ => vec![],
    }
}

fn search(bases: Vec<u64>, max_depth: usize) -> (Option<u64>, Vec<u64>) {
    let mut s = Discovery::find_file_in_dirs(&bases, "t.vdf", max_depth);
    let mut asked = vec![];
    loop {
        match s.step() {
            SearchStep::List(dir) => {
                asked.push(dir);
                s.listed(list(dir));
            }
            SearchStep::Found(key) => return (Some(key), asked),
            SearchStep::NotFound => return (None, asked),
        }
    }
}

#[test]
fn deeper_file_comes_before_the_next_entry() {
    assert_eq!(search(vec![1, 2], 4), (Some(30), vec![1, 11, 21]));
}

#[test]
fn depth_bounds_the_search() {
    assert_eq!(search(vec![1, 2], 2), (Some(12), vec![1, 11]));
    assert_eq!(search(vec![1, 2], 1), (Some(12), vec![1]));
    assert_eq!(search(vec![1, 2], 0), (None, vec![]));
}

#[test]
fn second_directory_is_searched_after_the_first() {
    assert_eq!(search(vec![7, 2], 4), (Some(41), vec![7, 2]));
    assert_eq!(search(vec![7], 4), (None, vec![7]));
    assert_eq!(search(vec![], 4), (None, vec![]));
}

#[test]
fn files_behind_links_are_not_found() {
    let mut s = Discovery::find_file_in_dirs(&vec![5], "t.vdf", 4);
    assert_eq!(s.step(), SearchStep::List(5));
    s.listed(vec![entry(10, "t.vdf", EntryKind::Symlink)]);
    assert_eq!(s.step(), SearchStep::NotFound);
}
