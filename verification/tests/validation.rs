use configurator::error::Report;
use configurator::path::{Path, PathComponent};
use configurator::record::Record;
use configurator::rules::inner;
use configurator::util::MaybeJoin;
use configurator::validate::Unvalidated;

fn field(name: &str) -> PathComponent {
    PathComponent::Field(String::from(name))
}

#[test]
fn empty_path_has_no_components() {
    let p = Path::empty();
    assert_eq!(p.len(), 0);
}

#[test]
fn join_appends_without_touching_parent() {
    let root = Path::empty();
    let a = root.join(&"name");
    let b = root.join(&0usize);
    assert_eq!(root.len(), 0);
    assert_eq!(a.len(), 1);
    assert!(a.component(0).equals(&field("name")));
    assert!(b.component(0).equals(&PathComponent::Index(0)));
}

#[test]
fn path_equality_is_structural() {
    let root = Path::empty();
    assert!(root.join(&"a") == root.join(&"a"));
    assert!(root.join(&"a") != root.join(&"b"));
    assert!(root.join(&"a") != root.join(&0usize));
    assert!(root.join(&"a").join(&1usize) == root.join(&"a").join(&1usize));
    assert!(root.join(&"a") != root.join(&"a").join(&1usize));
}

#[test]
fn report_preserves_insertion_order() {
    let mut report = Report::new();
    assert!(report.is_empty());
    let root = Path::empty();
    report.record(root.join(&"a"), configurator::error::Error::new(String::from("first")));
    report.record(root.join(&"b"), configurator::error::Error::new(String::from("second")));
    assert!(!report.is_empty());
    assert_eq!(report.len(), 2);
    assert_eq!(report.message_at(0), "first");
    assert_eq!(report.message_at(1), "second");
    assert!(*report.path_at(0) == root.join(&"a"));
}

#[test]
fn report_merge_appends_in_order() {
    let root = Path::empty();
    let mut a = Report::new();
    a.record(root.join(&"a"), configurator::error::Error::new(String::from("one")));
    let mut b = Report::new();
    b.record(root.join(&"b"), configurator::error::Error::new(String::from("two")));
    a.merge(&b);
    assert_eq!(a.len(), 2);
    assert_eq!(a.message_at(1), "two");
    assert_eq!(b.len(), 1);
}

#[test]
fn maybe_join_memoizes_first_result() {
    let root = Path::empty().join(&"outer");
    let mut cell: Option<Path> = None;
    let first = cell.maybe_join(&root, &"inner");
    // the memoized path is reused: the later component is never consulted
    let second = cell.maybe_join(&root, &"other");
    assert!(first == second);
    assert!(first == Path::empty().join(&"outer").join(&"inner"));
}

#[test]
fn record_scenario() {
    // `name` breaks its lower bound; `tags[0]` breaks the per-element lower
    // bound and `tags[2]` the per-element upper bound; `tags[1]` passes.
    let record = Record {
        name: String::new(),
        tags: vec![String::from("a"), String::from("bb"), String::from("ccc")],
    };
    let (_, report) = Unvalidated::new(record).validate().err().unwrap();
    assert_eq!(report.len(), 3);
    assert!(*report.path_at(0) == Path::empty().join(&"name"));
    assert_eq!(report.message_at(0), "length is lower than 1");
    assert!(*report.path_at(1) == Path::empty().join(&"tags").join(&0usize));
    assert_eq!(report.message_at(1), "length is lower than 2");
    assert!(*report.path_at(2) == Path::empty().join(&"tags").join(&2usize));
    assert_eq!(report.message_at(2), "length is greater than 2");
}

#[test]
fn record_all_violations_are_collected() {
    // independent violations in both fields: all are reported, in field order
    let record = Record {
        name: String::new(),
        tags: vec![String::from("x"), String::from("yy"), String::from("zzz")],
    };
    let (rejected, report) = Unvalidated::new(record).validate().err().unwrap();
    assert_eq!(report.len(), 3);
    // the rejected value comes back unchanged
    let record = rejected.into_inner();
    assert_eq!(record.name, "");
    assert_eq!(record.tags.len(), 3);
}

#[test]
fn valid_record_round_trips() {
    let record = Record {
        name: String::from("ada"),
        tags: vec![String::from("aa"), String::from("bb")],
    };
    let valid = Unvalidated::new(record).validate().ok().unwrap();
    // re-validating an already-valid value reports nothing new
    let report = valid.revalidate();
    assert!(report.is_empty());
    let record = valid.into_inner();
    assert_eq!(record.name, "ada");
}

#[test]
fn inner_traversal_visits_every_element_in_order() {
    let records = vec![
        Record { name: String::new(), tags: Vec::new() },
        Record { name: String::from("ok"), tags: Vec::new() },
        Record { name: String::new(), tags: Vec::new() },
    ];
    let root = Path::empty();
    let mut report = Report::new();
    inner::apply(&records, &root, &mut report);
    // elements 0 and 2 each contribute one violation, keyed by their index
    assert_eq!(report.len(), 2);
    assert!(*report.path_at(0) == root.join(&0usize).join(&"name"));
    assert!(*report.path_at(1) == root.join(&2usize).join(&"name"));
}

#[test]
fn optional_slot_uses_no_key_component() {
    let slot: Option<Record> = Some(Record { name: String::new(), tags: Vec::new() });
    let (_, report) = Unvalidated::new(slot).validate().err().unwrap();
    assert_eq!(report.len(), 1);
    assert!(report.path_at(0).component(0).equals(&PathComponent::NoKey));
    assert!(report.path_at(0).component(1).equals(&field("name")));
    let empty_slot: Option<Record> = None;
    assert!(Unvalidated::new(empty_slot).validate().is_ok());
}

#[test]
fn vec_of_records_validates_through_the_contract() {
    let records = vec![
        Record { name: String::from("ok"), tags: vec![String::from("aa")] },
        Record { name: String::from("fine"), tags: Vec::new() },
    ];
    assert!(Unvalidated::new(records).validate().is_ok());
}
