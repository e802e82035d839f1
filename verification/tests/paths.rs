use sourceprep::paths::{normalize_path, parse_prefix, strip_verbatim_from_prefix, PathPrefix};

#[test]
fn strip_verbatim() {
    let suite = vec![
        (r"C:\Users\carl", None),
        (r"\Users\carl", None),
        (r"\\?\C:\Users\carl", Some(r"C:\")),
        (r"\\?\Users\carl", Some(r"Users")),
    ];

    for (input, output) in suite {
        if let Some(parsed) = parse_prefix(input) {
            let stripped = strip_verbatim_from_prefix(&parsed.prefix);
            assert_eq!(stripped.as_ref().map(|p| p.as_str()), output);
        } else {
            assert!(output.is_none());
        }
    }
}

#[test]
fn parse_prefix_kinds() {
    match parse_prefix(r"C:\x") {
        Some(p) => match p.prefix {
            PathPrefix::Disk { drive } => {
                assert_eq!(drive, "C");
                assert_eq!(p.len, 2);
            }
            _ => panic!("expected a disk prefix"),
        },
        None => panic!("expected a prefix"),
    }

    match parse_prefix(r"\\?\C:\x") {
        Some(p) => match p.prefix {
            PathPrefix::VerbatimDisk { drive } => {
                assert_eq!(drive, "C");
                assert_eq!(p.len, 6);
            }
            _ => panic!("expected a verbatim disk prefix"),
        },
        None => panic!("expected a prefix"),
    }

    match parse_prefix(r"\\?\pictures\kittens") {
        Some(p) => match p.prefix {
            PathPrefix::Verbatim { prefix } => {
                assert_eq!(prefix, "pictures");
                assert_eq!(p.len, 12);
            }
            _ => panic!("expected a verbatim prefix"),
        },
        None => panic!("expected a prefix"),
    }

    match parse_prefix(r"\\?\UNC\server\share") {
        Some(p) => match p.prefix {
            PathPrefix::VerbatimUnc { server, share } => {
                assert_eq!(server, "server");
                assert_eq!(share, "share");
            }
            _ => panic!("expected a verbatim UNC prefix"),
        },
        None => panic!("expected a prefix"),
    }

    match parse_prefix(r"\\.\COM42") {
        Some(p) => match p.prefix {
            PathPrefix::DeviceNs { device } => assert_eq!(device, "COM42"),
            _ => panic!("expected a device prefix"),
        },
        None => panic!("expected a prefix"),
    }

    match parse_prefix(r"\\server\share\file") {
        Some(p) => match p.prefix {
            PathPrefix::Unc { server, share } => {
                assert_eq!(server, "server");
                assert_eq!(share, "share");
            }
            _ => panic!("expected a UNC prefix"),
        },
        None => panic!("expected a prefix"),
    }

    assert!(parse_prefix(r"relative\path").is_none());
    assert!(parse_prefix("/unix/path").is_none());
    assert!(parse_prefix("").is_none());
}

#[test]
fn normalize_strips_verbatim_disk() {
    let (p, warn) = normalize_path(r"\\?\C:\Users\carl", true);
    assert_eq!(p, r"C:\Users\carl");
    assert!(!warn);
}

#[test]
fn normalize_strips_plain_verbatim() {
    let (p, _) = normalize_path(r"\\?\Users\carl", true);
    assert_eq!(p, r"Users\carl");
}

#[test]
fn normalize_leaves_conventional_paths() {
    let (p, warn) = normalize_path(r"C:\Users\carl", true);
    assert_eq!(p, r"C:\Users\carl");
    assert!(!warn);
}

#[test]
fn normalize_is_identity_off_windows() {
    let (p, warn) = normalize_path("/home/user/src", false);
    assert_eq!(p, "/home/user/src");
    assert!(!warn);
}

#[test]
fn normalize_warns_on_long_paths() {
    let mut long = String::from(r"\\?\C:\");
    for _ in 0..60 {
        long.push_str(r"abcd\");
    }
    let (p, warn) = normalize_path(&long, true);
    assert!(p.len() >= 248);
    assert!(warn);
}
