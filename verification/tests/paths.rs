use wayclip_daemon::paths::{branding, directory_above, join};

#[test]
fn joining_paths() {
    assert_eq!(join("/home/a", "b.mp4"), "/home/a/b.mp4");
    assert_eq!(join("/home/a/", "b.mp4"), "/home/a/b.mp4");
    assert_eq!(join("", "b.mp4"), "b.mp4");
    assert_eq!(join("/home/a", "/tmp/b.mp4"), "/tmp/b.mp4");
    assert_eq!(join("a", ""), "a/");
}

#[test]
fn joining_agrees_with_std() {
    for (dir, name) in [("/x", "y"), ("/x/", "y"), ("", "y"), ("x", "/y"), ("x", ""), ("/", "y")] {
        let expected = std::path::Path::new(dir).join(name);
        assert_eq!(join(dir, name), expected.to_str().unwrap());
    }
}

#[test]
fn directories_above() {
    assert_eq!(directory_above("/home/me/wayclip-daemon"), "/home/me");
    assert_eq!(directory_above("/"), "");
    assert_eq!(directory_above("wayclip"), "");
}

#[test]
fn branding_lies_beside_the_package() {
    assert_eq!(
        branding("/src/wayclip-daemon", "svgs", "wayclip.svg"),
        "/src/branding/svgs/wayclip.svg"
    );
}
