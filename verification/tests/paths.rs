use std::path::Path;
use wtree::paths::{
    path_components, path_file_name, path_is_absolute, path_join, path_parent, path_starts_with,
};

fn name_of(path: &str) -> Option<String> {
    path_file_name(path)
}

fn parent_of(path: &str) -> Option<String> {
    path_parent(path)
}

#[test]
fn test_file_name_is_the_final_segment() {
    assert_eq!(name_of("/r/main"), Some("main".to_string()));
    assert_eq!(name_of("/r/.bare"), Some(".bare".to_string()));
    assert_eq!(name_of("main"), Some("main".to_string()));
    assert_eq!(name_of("tmp/foo.txt"), Some("foo.txt".to_string()));
    assert_eq!(name_of("/r/..a"), Some("..a".to_string()));
    assert_eq!(name_of("./a"), Some("a".to_string()));
}

#[test]
fn test_file_name_passes_over_what_names_nothing() {
    assert_eq!(name_of("/usr/bin/"), Some("bin".to_string()));
    assert_eq!(name_of("foo.txt/."), Some("foo.txt".to_string()));
    assert_eq!(name_of("foo.txt/.//"), Some("foo.txt".to_string()));
    assert_eq!(name_of("/r//main///"), Some("main".to_string()));
}

#[test]
fn test_file_name_of_paths_without_one() {
    assert_eq!(name_of(""), None);
    assert_eq!(name_of("/"), None);
    assert_eq!(name_of("//"), None);
    assert_eq!(name_of("/."), None);
    assert_eq!(name_of("."), None);
    assert_eq!(name_of("./"), None);
    assert_eq!(name_of(".."), None);
    assert_eq!(name_of("foo.txt/.."), None);
    assert_eq!(name_of("/../"), None);
}

#[test]
fn test_parent_drops_the_final_segment() {
    assert_eq!(parent_of("/r/main"), Some("/r".to_string()));
    assert_eq!(parent_of("/r/main/"), Some("/r".to_string()));
    assert_eq!(parent_of("/r//main"), Some("/r".to_string()));
    assert_eq!(parent_of("/r/./main"), Some("/r".to_string()));
    assert_eq!(parent_of("/r"), Some("/".to_string()));
    assert_eq!(parent_of("//r"), Some("/".to_string()));
    assert_eq!(parent_of("a/b"), Some("a".to_string()));
    assert_eq!(parent_of("a"), Some("".to_string()));
    assert_eq!(parent_of("./a"), Some(".".to_string()));
    assert_eq!(parent_of(".//a"), Some(".".to_string()));
    assert_eq!(parent_of("/r/.."), Some("/r".to_string()));
    assert_eq!(parent_of("/r/./.bare"), Some("/r".to_string()));
}

#[test]
fn test_parent_of_paths_without_one() {
    assert_eq!(parent_of(""), None);
    assert_eq!(parent_of("/"), None);
    assert_eq!(parent_of("///"), None);
    assert_eq!(parent_of("/."), None);
}

#[test]
fn test_parent_of_single_segments() {
    assert_eq!(parent_of("."), Some("".to_string()));
    assert_eq!(parent_of(".."), Some("".to_string()));
}

#[test]
fn test_join() {
    assert_eq!(path_join("/r", "main"), "/r/main");
    assert_eq!(path_join("/r/", "main"), "/r/main");
    assert_eq!(path_join("/r", "/abs"), "/abs");
    assert_eq!(path_join("", "main"), "main");
    assert_eq!(path_join("/r", ""), "/r/");
    assert_eq!(path_join("/r", "./.bare"), "/r/./.bare");
    assert_eq!(path_join("/", ".bare"), "/.bare");
    assert_eq!(path_join("r", "a/b"), "r/a/b");
}

#[test]
fn test_is_absolute() {
    assert!(path_is_absolute("/"));
    assert!(path_is_absolute("/r/main"));
    assert!(!path_is_absolute(""));
    assert!(!path_is_absolute("r/main"));
    assert!(!path_is_absolute("./r"));
}

#[test]
fn test_components() {
    assert_eq!(path_components("/r/main"), vec!["/", "r", "main"]);
    assert_eq!(path_components("/r//main/./x/"), vec!["/", "r", "main", "x"]);
    assert_eq!(path_components("r/main"), vec!["r", "main"]);
    assert_eq!(path_components("./r/../main"), vec![".", "r", "..", "main"]);
    assert_eq!(path_components("."), vec!["."]);
    assert_eq!(path_components("/"), vec!["/"]);
    assert_eq!(path_components("//"), vec!["/"]);
    assert_eq!(path_components(".a/b"), vec![".a", "b"]);
    assert!(path_components("").is_empty());
}

#[test]
fn test_starts_with_goes_by_whole_segments() {
    assert!(path_starts_with("/r/main", "/r/main"));
    assert!(path_starts_with("/r/main/src/lib", "/r/main"));
    assert!(path_starts_with("/r/main/src", "/r/main/"));
    assert!(path_starts_with("/r//main/./src", "/r/main"));
    assert!(path_starts_with("/r/main", "/"));
    assert!(path_starts_with("/r/main", ""));
    assert!(!path_starts_with("/r/main-2", "/r/main"));
    assert!(!path_starts_with("/r/mai", "/r/main"));
    assert!(!path_starts_with("/r", "/r/main"));
    assert!(!path_starts_with("r/main", "/r"));
    assert!(!path_starts_with("/r/main", "r"));
    assert!(!path_starts_with("./a", "a"));
    assert!(path_starts_with("./a", "."));
}

/// Every text of up to `max` characters over `alphabet`.
fn texts_over(alphabet: &[char], max: usize) -> Vec<String> {
    let mut all = vec![String::new()];
    let mut last = vec![String::new()];
    for _ in 0..max {
        let mut next = Vec::new();
        for text in &last {
            for c in alphabet {
                let mut longer = text.clone();
                longer.push(*c);
                next.push(longer);
            }
        }
        all.extend(next.iter().cloned());
        last = next;
    }
    all
}

#[test]
fn test_paths_agree_with_std_path() {
    for text in texts_over(&['/', '.', 'a'], 7) {
        let path = Path::new(&text);
        assert_eq!(
            path_file_name(&text),
            path.file_name().map(|name| name.to_string_lossy().to_string()),
            "file name of {:?}",
            text
        );
        assert_eq!(
            path_parent(&text),
            path.parent().map(|dir| dir.to_string_lossy().to_string()),
            "parent of {:?}",
            text
        );
        assert_eq!(
            path_is_absolute(&text),
            path.is_absolute(),
            "is absolute {:?}",
            text
        );
        let steps: Vec<String> = path
            .components()
            .map(|step| step.as_os_str().to_string_lossy().to_string())
            .collect();
        assert_eq!(path_components(&text), steps, "components of {:?}", text);
    }
}

#[test]
fn test_join_and_starts_with_agree_with_std_path() {
    let texts = texts_over(&['/', '.', 'a'], 4);
    for base in &texts {
        for text in &texts {
            assert_eq!(
                path_join(base, text),
                Path::new(base).join(text).to_string_lossy(),
                "join of {:?} and {:?}",
                base,
                text
            );
            assert_eq!(
                path_starts_with(text, base),
                Path::new(text).starts_with(base),
                "{:?} starts with {:?}",
                text,
                base
            );
        }
    }
}
