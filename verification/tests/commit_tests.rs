use ghl::answer::{not_blank, not_empty, Validation};
use ghl::commit::CommitDescriptor;
use ghl::kind::CommitKind;

fn reason(v: Validation) -> Option<String> {
    match v {
        Validation::Valid => None,
        Validation::Invalid(reason) => Some(reason),
    }
}

#[test]
fn message_without_scope() {
    let d = CommitDescriptor::new(CommitKind::Feat, None, "add login").unwrap();
    assert_eq!(d.message(), "feat: add login");
}

#[test]
fn message_with_scope() {
    let d =
        CommitDescriptor::new(CommitKind::Fix, Some("auth"), "handle expired tokens").unwrap();
    assert_eq!(d.message(), "fix(auth): handle expired tokens");
}

#[test]
fn message_for_every_kind() {
    for kind in CommitKind::all() {
        let plain = CommitDescriptor::new(kind, None, "x").unwrap();
        assert_eq!(plain.message(), format!("{}: x", kind.keyword()));
        let scoped = CommitDescriptor::new(kind, Some("core"), "x").unwrap();
        assert_eq!(scoped.message(), format!("{}(core): x", kind.keyword()));
    }
}

#[test]
fn empty_scope_counts_as_none() {
    let d = CommitDescriptor::new(CommitKind::Docs, Some(""), "readme").unwrap();
    assert_eq!(d.scope(), None);
    assert_eq!(d.message(), "docs: readme");
}

#[test]
fn scope_is_trimmed() {
    let d = CommitDescriptor::new(CommitKind::Ci, Some(" build "), "cache").unwrap();
    assert_eq!(d.scope(), Some("build"));
    assert_eq!(d.message(), "ci(build): cache");
}

#[test]
fn scope_of_white_space_stays_a_scope() {
    let d = CommitDescriptor::new(CommitKind::Ci, Some("  "), "cache").unwrap();
    assert_eq!(d.scope(), Some(""));
    assert_eq!(d.message(), "ci(): cache");
}

#[test]
fn name_is_trimmed() {
    let d = CommitDescriptor::new(CommitKind::Perf, None, "  faster  start \n").unwrap();
    assert_eq!(d.name(), "faster  start");
    assert_eq!(d.message(), "perf: faster  start");
}

#[test]
fn blank_name_is_refused() {
    assert!(CommitDescriptor::new(CommitKind::Feat, None, "").is_none());
    assert!(CommitDescriptor::new(CommitKind::Feat, Some("x"), "   ").is_none());
    assert!(CommitDescriptor::new(CommitKind::Feat, None, "\t\n").is_none());
}

#[test]
fn descriptor_keeps_its_kind() {
    let d = CommitDescriptor::new(CommitKind::Revert, None, "x").unwrap();
    assert_eq!(d.kind(), CommitKind::Revert);
}

#[test]
fn not_empty_refuses_the_empty_answer_only() {
    assert_eq!(reason(not_empty("")), Some(String::from("You must enter a value.")));
    assert_eq!(reason(not_empty(" ")), None);
    assert_eq!(reason(not_empty("x")), None);
}

#[test]
fn not_blank_refuses_white_space() {
    assert_eq!(reason(not_blank("")), Some(String::from("You must enter a value.")));
    assert_eq!(reason(not_blank(" \t")), Some(String::from("You must enter a value.")));
    assert_eq!(reason(not_blank(" x ")), None);
}

#[test]
fn not_blank_accepts_what_a_descriptor_accepts() {
    let samples = ["", " ", "a", " a ", "\u{a0}", "\u{200b}"];
    for s in samples {
        let valid = reason(not_blank(s)).is_none();
        assert_eq!(valid, CommitDescriptor::new(CommitKind::Fix, None, s).is_some(), "{:?}", s);
    }
}
