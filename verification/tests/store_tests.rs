use ghl::config::{Config, StoreStep};
use ghl::store::{PreferenceRecord, StoreError};

fn shown(steps: Vec<StoreStep>) -> Vec<String> {
    let mut out = Vec::new();
    for step in steps {
        out.push(match step {
            StoreStep::CreateDir(path) => format!("mkdir {}", path),
            StoreStep::CreateFile(path) => format!("touch {}", path),
            StoreStep::Write(path, text) => format!("write {} <- {}", path, text),
        });
    }
    out
}

#[test]
fn token_is_not_found_before_it_is_set() {
    let store = PreferenceRecord::new();
    assert_eq!(Config::get_github_token(&store), Err(StoreError::NotFound));
}

#[test]
fn description_is_not_found_before_it_is_set() {
    let store = PreferenceRecord::new();
    assert_eq!(Config::get_default_desc(&store), Err(StoreError::NotFound));
}

#[test]
fn empty_token_is_not_written() {
    let mut store = PreferenceRecord::new();
    assert!(!Config::set_github_token(&mut store, Some("")));
    assert!(!Config::set_github_token(&mut store, None));
    assert_eq!(Config::get_github_token(&store), Err(StoreError::NotFound));
}

#[test]
fn empty_token_leaves_the_stored_token() {
    let mut store = PreferenceRecord::new();
    assert!(Config::set_github_token(&mut store, Some("SECRET-REDACTED")));
    assert!(!Config::set_github_token(&mut store, Some("")));
    assert!(!Config::set_github_token(&mut store, None));
    assert!(!Config::set_github_token(&mut store, Some("  \n")));
    assert_eq!(Config::get_github_token(&store), Ok(String::from("SECRET-REDACTED")));
}

#[test]
fn token_is_stored_trimmed() {
    let mut store = PreferenceRecord::new();
    assert!(Config::set_github_token(&mut store, Some("  abc123 \n")));
    assert_eq!(Config::get_github_token(&store), Ok(String::from("abc123")));
}

#[test]
fn last_token_wins() {
    let mut store = PreferenceRecord::new();
    assert!(Config::set_github_token(&mut store, Some("first")));
    assert!(Config::set_github_token(&mut store, Some("second")));
    assert_eq!(Config::get_github_token(&store), Ok(String::from("second")));
}

#[test]
fn same_token_is_written_again() {
    let mut store = PreferenceRecord::new();
    assert!(Config::set_github_token(&mut store, Some("same")));
    assert!(Config::set_github_token(&mut store, Some("same")));
    assert_eq!(Config::get_github_token(&store), Ok(String::from("same")));
}

#[test]
fn token_and_description_do_not_touch_each_other() {
    let mut store = PreferenceRecord::new();
    assert!(Config::set_github_token(&mut store, Some("tok")));
    assert_eq!(Config::get_default_desc(&store), Err(StoreError::NotFound));
    assert!(Config::set_default_desc(&mut store, Some("text")));
    assert_eq!(Config::get_github_token(&store), Ok(String::from("tok")));
    assert_eq!(Config::get_default_desc(&store), Ok(String::from("text")));
}

#[test]
fn description_is_written_once() {
    let mut store = PreferenceRecord::new();
    let text = "## What\n\n## Why";
    assert!(Config::set_default_desc(&mut store, Some(text)));
    assert!(!Config::set_default_desc(&mut store, Some(text)));
    assert_eq!(Config::get_default_desc(&store), Ok(String::from(text)));
}

#[test]
fn description_is_stored_trimmed() {
    let mut store = PreferenceRecord::new();
    assert!(Config::set_default_desc(&mut store, Some("  body\n")));
    assert_eq!(Config::get_default_desc(&store), Ok(String::from("body")));
    assert!(Config::set_default_desc(&mut store, Some("\n  first\n\n  second \n")));
    assert_eq!(Config::get_default_desc(&store), Ok(String::from("first\n\n  second")));
}

#[test]
fn description_that_is_the_same_once_trimmed_is_not_written() {
    let mut store = PreferenceRecord::new();
    assert!(Config::set_default_desc(&mut store, Some("a")));
    assert!(!Config::set_default_desc(&mut store, Some(" a")));
    assert!(!Config::set_default_desc(&mut store, Some("a\n")));
    assert!(!Config::set_default_desc(&mut store, Some("  a \t")));
    assert_eq!(Config::get_default_desc(&store), Ok(String::from("a")));
}

#[test]
fn description_that_differs_is_written() {
    let mut store = PreferenceRecord::new();
    assert!(Config::set_default_desc(&mut store, Some("one")));
    assert!(Config::set_default_desc(&mut store, Some("one two")));
    assert!(Config::set_default_desc(&mut store, Some("one")));
    assert_eq!(Config::get_default_desc(&store), Ok(String::from("one")));
}

#[test]
fn description_found_untrimmed_is_replaced_by_its_trimmed_form() {
    let mut store = PreferenceRecord::load(None, Some(String::from("a\n")));
    assert_eq!(Config::get_default_desc(&store), Ok(String::from("a\n")));
    assert!(Config::set_default_desc(&mut store, Some("a\n")));
    assert_eq!(Config::get_default_desc(&store), Ok(String::from("a")));
    assert!(!Config::set_default_desc(&mut store, Some("a\n")));
}

#[test]
fn empty_description_is_not_written() {
    let mut store = PreferenceRecord::new();
    assert!(!Config::set_default_desc(&mut store, Some("")));
    assert!(!Config::set_default_desc(&mut store, None));
    assert!(!Config::set_default_desc(&mut store, Some(" \n")));
    assert_eq!(Config::get_default_desc(&store), Err(StoreError::NotFound));
    assert!(Config::set_default_desc(&mut store, Some("kept")));
    assert!(!Config::set_default_desc(&mut store, Some("")));
    assert!(!Config::set_default_desc(&mut store, None));
    assert_eq!(Config::get_default_desc(&store), Ok(String::from("kept")));
}

#[test]
fn loaded_record_holds_what_was_found() {
    let store = PreferenceRecord::load(Some(String::from("tok")), None);
    assert_eq!(store.token(), Some("tok"));
    assert_eq!(store.description(), None);
    assert_eq!(Config::get_github_token(&store), Ok(String::from("tok")));
    assert_eq!(Config::get_default_desc(&store), Err(StoreError::NotFound));
    let mut other = PreferenceRecord::load(None, Some(String::from("d")));
    assert!(!Config::set_default_desc(&mut other, Some("d")));
    assert_eq!(other.token(), None);
}

#[test]
fn empty_file_counts_as_never_written() {
    let store = PreferenceRecord::load(Some(String::new()), Some(String::new()));
    assert_eq!(store.token(), None);
    assert_eq!(store.description(), None);
    assert_eq!(Config::get_github_token(&store), Err(StoreError::NotFound));
    assert_eq!(Config::get_default_desc(&store), Err(StoreError::NotFound));
}

#[test]
fn file_of_white_space_is_read_as_it_is() {
    let store = PreferenceRecord::load(Some(String::from(" ")), Some(String::from("\n")));
    assert_eq!(Config::get_github_token(&store), Ok(String::from(" ")));
    assert_eq!(Config::get_default_desc(&store), Ok(String::from("\n")));
}

#[test]
fn paths_lie_under_the_home_directory() {
    let (dir, token, desc) = Config::get_paths("/home/ada");
    assert_eq!(dir, "/home/ada/.ghl");
    assert_eq!(token, "/home/ada/.ghl/token");
    assert_eq!(desc, "/home/ada/.ghl/desc.md");
}

#[test]
fn paths_under_an_empty_home() {
    let (dir, token, desc) = Config::get_paths("");
    assert_eq!(dir, "/.ghl");
    assert_eq!(token, "/.ghl/token");
    assert_eq!(desc, "/.ghl/desc.md");
}

#[test]
fn paths_for_a_known_home() {
    assert_eq!(
        Config::paths_for(Some(String::from("/home/ada"))),
        Some((
            String::from("/home/ada/.ghl"),
            String::from("/home/ada/.ghl/token"),
            String::from("/home/ada/.ghl/desc.md")
        ))
    );
    assert_eq!(
        Config::paths_for(Some(String::new())),
        Some((String::from("/.ghl"), String::from("/.ghl/token"), String::from("/.ghl/desc.md")))
    );
}

#[test]
fn no_paths_for_an_unknown_home() {
    assert_eq!(Config::paths_for(None), None);
}

#[test]
fn located_paths_are_those_for_the_home_directory() {
    let home = match home::home_dir() {
        Some(path) => path.to_str().map(String::from),
        None => None,
    };
    assert_eq!(Config::locate(), Config::paths_for(home));
}

#[test]
fn located_paths_belong_together() {
    if let Some((dir, token, desc)) = Config::locate() {
        assert!(dir.ends_with("/.ghl"));
        assert_eq!(token, format!("{}/token", dir));
        assert_eq!(desc, format!("{}/desc.md", dir));
        if let Some(home) = home::home_dir() {
            assert_eq!(Some(&dir[..dir.len() - 5]), home.to_str());
        }
    }
}

#[test]
fn steps_create_what_is_missing() {
    assert_eq!(
        shown(Config::write_steps(false, false, "/h/.ghl", "/h/.ghl/token", "abc")),
        vec!["mkdir /h/.ghl", "touch /h/.ghl/token", "write /h/.ghl/token <- abc"]
    );
    assert_eq!(
        shown(Config::write_steps(true, false, "/h/.ghl", "/h/.ghl/token", "abc")),
        vec!["touch /h/.ghl/token", "write /h/.ghl/token <- abc"]
    );
    assert_eq!(
        shown(Config::write_steps(true, true, "/h/.ghl", "/h/.ghl/desc.md", "x\ny")),
        vec!["write /h/.ghl/desc.md <- x\ny"]
    );
    assert_eq!(
        shown(Config::write_steps(false, true, "d", "f", "")),
        vec!["mkdir d", "write f <- "]
    );
}
