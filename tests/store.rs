use patch_compiler::boards::Board;
use patch_compiler::compilation_worker::mark_compiling;
use patch_compiler::patches::{DateTime, PatchMeta, PatchStatus};
use patch_compiler::store::{take_next_patch, PatchQueue, PatchesMap};

fn record(id: &str) -> PatchMeta {
    PatchMeta::new_upload(
        id.to_string(),
        Board::Pod,
        "synth.pd".to_string(),
        DateTime { secs: 10, nanos: 0 },
    )
}

fn debug_of(m: &Option<PatchMeta>) -> String {
    format!("{:?}", m)
}

#[test]
fn store_insert_then_get() {
    let mut m = PatchesMap::new();
    assert!(m.get("a").is_none());
    m.insert("a".to_string(), record("a"));
    m.insert("b".to_string(), record("b"));
    assert_eq!(m.get("a").unwrap().id, "a");
    assert_eq!(m.get("b").unwrap().id, "b");
    assert!(m.get("c").is_none());
}

#[test]
fn store_insert_replaces_whole_record() {
    let mut m = PatchesMap::new();
    m.insert("a".to_string(), record("a"));
    let compiling = mark_compiling(&record("a"), DateTime { secs: 20, nanos: 0 });
    m.insert("a".to_string(), compiling);
    let got = m.get("a").unwrap();
    assert!(matches!(got.status, PatchStatus::Compiling));
    assert_eq!(got.time_compile_start, Some(DateTime { secs: 20, nanos: 0 }));
    assert_eq!(m.list().len(), 1);
}

#[test]
fn repeated_gets_are_identical() {
    let mut m = PatchesMap::new();
    m.insert("a".to_string(), record("a"));
    let first = debug_of(&m.get("a"));
    let second = debug_of(&m.get("a"));
    assert_eq!(first, second);
    // a write under another id does not change what `a` reads
    m.insert("b".to_string(), record("b"));
    let _ = m.list();
    assert_eq!(debug_of(&m.get("a")), first);
}

#[test]
fn get_returns_an_independent_copy() {
    let mut m = PatchesMap::new();
    m.insert("a".to_string(), record("a"));
    let mut copy = m.get("a").unwrap();
    copy.filename = "changed.pd".to_string();
    assert_eq!(m.get("a").unwrap().filename, "synth.pd");
}

#[test]
fn list_snapshot_is_pre_or_post_update() {
    let mut m = PatchesMap::new();
    m.insert("a".to_string(), record("a"));
    m.insert("b".to_string(), record("b"));
    let before = m.list();
    m.insert("a".to_string(), mark_compiling(&record("a"), DateTime { secs: 30, nanos: 0 }));
    let after = m.list();
    let find = |l: &Vec<(String, PatchMeta)>, id: &str| {
        l.iter().find(|(k, _)| k == id).map(|(_, v)| v.clone()).unwrap()
    };
    assert_eq!(before.len(), 2);
    assert_eq!(after.len(), 2);
    let a_before = find(&before, "a");
    assert!(matches!(a_before.status, PatchStatus::Uploaded));
    assert_eq!(a_before.time_compile_start, None);
    let a_after = find(&after, "a");
    assert!(matches!(a_after.status, PatchStatus::Compiling));
    assert_eq!(a_after.time_compile_start, Some(DateTime { secs: 30, nanos: 0 }));
    assert!(matches!(find(&after, "b").status, PatchStatus::Uploaded));
}

#[test]
fn queue_is_first_in_first_out() {
    let mut q = PatchQueue::new();
    assert_eq!(q.dequeue(), None);
    q.enqueue("a".to_string());
    q.enqueue("b".to_string());
    assert_eq!(q.dequeue(), Some("a".to_string()));
    q.enqueue("c".to_string());
    assert_eq!(q.len(), 2);
    assert_eq!(q.dequeue(), Some("b".to_string()));
    assert_eq!(q.dequeue(), Some("c".to_string()));
    assert_eq!(q.dequeue(), None);
    assert_eq!(q.len(), 0);
}

#[test]
fn take_next_patch_pops_and_looks_up() {
    let mut m = PatchesMap::new();
    m.insert("a".to_string(), record("a"));
    let mut q = PatchQueue::new();
    assert!(take_next_patch(&mut q, &m).is_none());
    q.enqueue("missing".to_string());
    q.enqueue("a".to_string());
    // an id without a record is dropped
    assert!(take_next_patch(&mut q, &m).is_none());
    assert_eq!(q.len(), 1);
    let next = take_next_patch(&mut q, &m).unwrap();
    assert_eq!(next.id, "a");
    assert_eq!(q.len(), 0);
}
