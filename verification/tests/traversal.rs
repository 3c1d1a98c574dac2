use pointer_debug::memory::{MemEntry, Memory, ReadOutcome};
use pointer_debug::model::{Field, Record};
use pointer_debug::print_with_pointer_reading;
use pointer_debug::PointerPrint;

fn plain(name: &str, tag: &str, val: &str) -> Field {
    Field::plain(name.to_string(), tag.to_string(), val.to_string()).unwrap()
}

fn pointer(name: &str, tag: &str, addr: u64) -> Field {
    Field::pointer(name.to_string(), tag.to_string(), addr).unwrap()
}

fn node(id: &str, next: u64) -> Record {
    Record {
        type_label: "Node".to_string(),
        fields: vec![plain("id", "u32", id), pointer("next", "Pointer", next)],
    }
}

fn mem_with(entries: Vec<(u64, Record)>) -> Memory {
    Memory {
        entries: entries
            .into_iter()
            .map(|(addr, r)| MemEntry {
                addr,
                outcome: ReadOutcome::Value(r),
            })
            .collect(),
    }
}

#[test]
fn self_cycle_scenario() {
    // Node resident at 0x1000 whose `next` points back to 0x1000.
    let mem = mem_with(vec![(0x1000, node("2", 0x1000))]);
    let root = node("1", 0x1000);
    let out = root.pointer_print_with_depth(&mem, 5);
    assert_eq!(
        out,
        vec![
            "Node {",
            "  id: u32 = 1",
            "  next-> Node {",
            "    id: u32 = 2",
            "    next → Already visited address 0x1000",
            "  }",
            "}",
        ]
    );
}

#[test]
fn two_record_cycle() {
    // A at 0xa0 points to B at 0xb0; B points back to A at 0xa0.
    let a = Record {
        type_label: "A".to_string(),
        fields: vec![pointer("b", "Pointer", 0xb0)],
    };
    let b = Record {
        type_label: "B".to_string(),
        fields: vec![pointer("a", "Pointer", 0xa0)],
    };
    let mem = mem_with(vec![(0xa0, a.clone()), (0xb0, b)]);
    let out = a.pointer_print_with_depth(&mem, 5);
    assert_eq!(
        out,
        vec![
            "A {",
            "  b-> B {",
            "    a-> A {",
            "      b → Already visited address 0xb0",
            "    }",
            "  }",
            "}",
        ]
    );
}

#[test]
fn depth_zero_prints_only_delimiters() {
    let mem = mem_with(vec![(0x1000, node("2", 0x1000))]);
    let root = node("1", 0x1000);
    let out = root.pointer_print_with_depth(&mem, 0);
    assert_eq!(out, vec!["Node {", "}"]);
}

#[test]
fn depth_one_follows_one_level() {
    let mem = mem_with(vec![(0x1000, node("2", 0x2000)), (0x2000, node("3", 0))]);
    let root = node("1", 0x1000);
    let out = root.pointer_print_with_depth(&mem, 1);
    assert_eq!(
        out,
        vec!["Node {", "  id: u32 = 1", "  next-> Node {", "  }", "}"]
    );
}

#[test]
fn padding_fields_produce_no_output() {
    let rec = Record {
        type_label: "Padded".to_string(),
        fields: vec![
            plain("before", "u8", "7"),
            plain("_pad0", "u32", "0"),
            pointer("ptr_pad", "Pointer64", 0xdead),
            plain("after", "u8", "9"),
        ],
    };
    let mem = mem_with(vec![]);
    let out = rec.pointer_print_with_depth(&mem, 5);
    // Neither padding field prints, and the padding pointer is not followed.
    assert_eq!(
        out,
        vec!["Padded {", "  before: u8 = 7", "  after: u8 = 9", "}"]
    );
}

#[test]
fn read_error_isolated_from_siblings() {
    let target = Record {
        type_label: "Leaf".to_string(),
        fields: vec![plain("v", "u16", "42")],
    };
    let mem = Memory {
        entries: vec![
            MemEntry {
                addr: 0x10,
                outcome: ReadOutcome::Value(target),
            },
            MemEntry {
                addr: 0xbad,
                outcome: ReadOutcome::Fault("access violation".to_string()),
            },
        ],
    };
    let rec = Record {
        type_label: "Holder".to_string(),
        fields: vec![
            plain("a", "u8", "1"),
            pointer("broken", "Pointer", 0xbad),
            plain("c", "u8", "3"),
            pointer("good", "Pointer", 0x10),
        ],
    };
    let out = rec.pointer_print_with_depth(&mem, 5);
    assert_eq!(
        out,
        vec![
            "Holder {",
            "  a: u8 = 1",
            "  broken → Error reading: access violation",
            "  c: u8 = 3",
            "  good-> Leaf {",
            "    v: u16 = 42",
            "  }",
            "}",
        ]
    );
}

#[test]
fn unmapped_address_reports_error() {
    let rec = Record {
        type_label: "Holder".to_string(),
        fields: vec![pointer("dangling", "Pointer", 0x77)],
    };
    let mem = mem_with(vec![]);
    let out = rec.pointer_print_with_depth(&mem, 5);
    assert_eq!(
        out,
        vec![
            "Holder {",
            "  dangling → Error reading: unmapped address",
            "}",
        ]
    );
}

#[test]
fn traversal_is_idempotent() {
    let mem = mem_with(vec![(0x1000, node("2", 0x1000)), (0x2000, node("9", 0x1000))]);
    let root = node("1", 0x2000);
    let first = root.pointer_print_with_depth(&mem, 4);
    let second = root.pointer_print_with_depth(&mem, 4);
    assert_eq!(first, second);
}

#[test]
fn default_depth_is_five() {
    // A chain of seven distinct nodes; the default ceiling cuts it at five.
    let mem = mem_with(vec![
        (0x1, node("1", 0x2)),
        (0x2, node("2", 0x3)),
        (0x3, node("3", 0x4)),
        (0x4, node("4", 0x5)),
        (0x5, node("5", 0x6)),
        (0x6, node("6", 0x7)),
        (0x7, node("7", 0)),
    ]);
    let root = node("0", 0x1);
    let by_default = root.pointer_print(&mem);
    let by_depth = root.pointer_print_with_depth(&mem, 5);
    assert_eq!(by_default, by_depth);
    let convenience = print_with_pointer_reading(&root, &mem);
    assert_eq!(convenience, by_default);
    // Depth 5 reaches the node with id 5 but prints none of its fields.
    assert!(by_default.iter().any(|l| l.contains("next-> Node")));
    assert!(by_default.iter().any(|l| l.contains("id: u32 = 3")));
    assert!(!by_default.iter().any(|l| l.contains("id: u32 = 5")));
}

#[test]
fn plain_record_without_pointers() {
    let rec = Record {
        type_label: "Point".to_string(),
        fields: vec![plain("x", "i32", "-3"), plain("y", "i32", "4")],
    };
    let mem = mem_with(vec![]);
    let out = rec.pointer_print_with_depth(&mem, 5);
    assert_eq!(out, vec!["Point {", "  x: i32 = -3", "  y: i32 = 4", "}"]);
}
