use ai_deno::cjs_cache::{copy_strings, CliCjsAnalysis, ModuleExportsAndReExports};
use ai_deno::cjs_tracker::{CjsTracker, IsCjsResolutionMode, ResolutionMode};
use ai_deno::memo::Memo;
use ai_deno::npm::{contains_key, remove_key};
use ai_deno::paths::join_path;
use ai_deno::text::{
    chars_of, ends_with, find_either, join2, join3, occurs_from, same_text, slice_text,
    starts_with, str_ends_with, str_starts_with,
};

fn chars(text: &str) -> Vec<char> {
    text.chars().collect()
}

#[test]
fn characters_of_a_text() {
    assert_eq!(chars_of("aé日"), vec!['a', 'é', '日']);
    assert_eq!(chars_of(""), Vec::<char>::new());
}

#[test]
fn first_delimiter() {
    let text = chars("ab/c@d");
    assert_eq!(find_either(&text, 0, '/', '@'), 2);
    assert_eq!(find_either(&text, 3, '/', '@'), 4);
    assert_eq!(find_either(&text, 5, '/', '@'), 6);
    assert_eq!(find_either(&text, 6, '/', '@'), 6);
    assert_eq!(find_either(&text, 0, 'x', 'x'), 6);
    assert!(occurs_from(&text, 0, '@'));
    assert!(!occurs_from(&text, 5, '@'));
    assert!(!occurs_from(&text, 6, 'a'));
}

#[test]
fn beginnings_and_endings() {
    assert!(starts_with(&chars("abc"), &chars("ab")));
    assert!(starts_with(&chars("abc"), &chars("")));
    assert!(!starts_with(&chars("ab"), &chars("abc")));
    assert!(!starts_with(&chars("abc"), &chars("bc")));
    assert!(ends_with(&chars("abc"), &chars("bc")));
    assert!(ends_with(&chars("abc"), &chars("")));
    assert!(!ends_with(&chars("bc"), &chars("abc")));
    assert!(!ends_with(&chars("abc"), &chars("ab")));
    assert!(str_starts_with("日本語", "日本"));
    assert!(!str_starts_with("日本語", "本"));
    assert!(str_ends_with("日本語", "本語"));
    assert!(!str_ends_with("日本語", "日本"));
    assert!(same_text("日本語", "日本語"));
    assert!(!same_text("日本語", "日本"));
    assert!(!same_text("abc", "abd"));
    assert!(same_text("", ""));
}

#[test]
fn pieces_of_texts() {
    assert_eq!(slice_text("日本語abc", 1, 4), "本語a");
    assert_eq!(slice_text("abc", 0, 0), "");
    assert_eq!(slice_text("abc", 3, 3), "");
    assert_eq!(join2("a", "b"), "ab");
    assert_eq!(join3("a", "", "c"), "ac");
    assert_eq!(join_path("/a", "b/c"), "/a/b/c");
    assert_eq!(join_path("", "b"), "/b");
}

#[test]
fn keys_in_a_list() {
    let mut keys = vec!["a".to_string(), "b".to_string(), "a".to_string()];
    assert!(contains_key(&keys, "a"));
    assert!(!contains_key(&keys, "c"));
    remove_key(&mut keys, "a");
    assert_eq!(keys, vec!["b".to_string()]);
    remove_key(&mut keys, "c");
    assert_eq!(keys, vec!["b".to_string()]);
}

#[test]
fn memo_table() {
    let mut memo: Memo<u32> = Memo::new();
    assert_eq!(memo.get("a"), None);
    memo.remember("a".to_string(), 1);
    memo.remember("b".to_string(), 2);
    assert_eq!(memo.get("a"), Some(&1));
    assert_eq!(memo.get("b"), Some(&2));
    memo.remember("a".to_string(), 3);
    assert_eq!(memo.get("a"), Some(&1));
    assert_eq!(memo.get("b"), Some(&2));
    assert_eq!(memo.get("c"), None);
    assert_eq!(memo.get(""), None);
}

#[test]
fn copies_are_equal() {
    let names = vec!["a".to_string(), "b".to_string()];
    assert_eq!(copy_strings(&names), names);
    let exports = ModuleExportsAndReExports { exports: names.clone(), reexports: vec!["c".to_string()] };
    assert_eq!(exports.copy(), exports);
    let verdict = CliCjsAnalysis::EsmAnalysis(exports);
    assert_eq!(verdict.copy(), verdict);
    assert_eq!(CliCjsAnalysis::Esm.copy(), CliCjsAnalysis::Esm);
}

#[test]
fn tracker_remembers_the_last_mode() {
    let mut tracker = CjsTracker::new(IsCjsResolutionMode::Disabled);
    tracker.set_known("file:///a.js", ResolutionMode::Require);
    tracker.set_known("file:///b.js", ResolutionMode::Import);
    tracker.set_known("file:///a.js", ResolutionMode::Import);
    assert_eq!(tracker.get_known("file:///a.js"), Some(ResolutionMode::Import));
    assert_eq!(tracker.get_known("file:///b.js"), Some(ResolutionMode::Import));
    assert_eq!(tracker.known.len(), 2);
}
