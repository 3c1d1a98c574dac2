//! The traversal's stated properties, proved of the rendering specification
//! that the engine's contracts are pinned to.

use vstd::prelude::*;
use crate::memory::EntryModel;
use crate::memory::OutcomeModel;
use crate::memory::read_outcome;
use crate::model::FieldModel;
use crate::model::FieldValueModel;
use crate::model::RecordModel;
use crate::render::close_line;
use crate::render::error_line;
use crate::render::open_line;
use crate::render::plain_line;
use crate::render::render_body;
use crate::render::render_fields;
use crate::render::render_tree;
use crate::render::visited_line;
use crate::text::is_padding_name;
use crate::text::is_pointer_tag;

verus! {

/// An address once visited stays visited: processing any run of fields only
/// grows the visited set.
pub proof fn lemma_fields_visited_monotone(
    fields: Seq<FieldModel>,
    i: int,
    mem: Seq<EntryModel>,
    depth: nat,
    max_depth: nat,
    visited: Set<u64>,
)
    ensures
        visited.subset_of(render_fields(fields, i, mem, depth, max_depth, visited).1),
    decreases max_depth - depth, 0int, fields.len() - i,
{
    if depth >= max_depth || i < 0 || i >= fields.len() {
    } else {
        let f = fields[i];
        if is_padding_name(f.name) {
            lemma_fields_visited_monotone(fields, i + 1, mem, depth, max_depth, visited);
        } else {
            match f.value {
                FieldValueModel::Plain(_) => {
                    lemma_fields_visited_monotone(fields, i + 1, mem, depth, max_depth, visited);
                },
                FieldValueModel::Pointer(addr) => {
                    if visited.contains(addr) {
                        lemma_fields_visited_monotone(
                            fields,
                            i + 1,
                            mem,
                            depth,
                            max_depth,
                            visited,
                        );
                    } else {
                        let marked = visited.insert(addr);
                        match read_outcome(mem, addr) {
                            OutcomeModel::Value(target) => {
                                lemma_body_visited_monotone(
                                    target,
                                    mem,
                                    depth + 1,
                                    max_depth,
                                    marked,
                                );
                                let sub = render_body(target, mem, depth + 1, max_depth, marked);
                                lemma_fields_visited_monotone(
                                    fields,
                                    i + 1,
                                    mem,
                                    depth,
                                    max_depth,
                                    sub.1,
                                );
                            },
                            OutcomeModel::Fault(_) => {
                                lemma_fields_visited_monotone(
                                    fields,
                                    i + 1,
                                    mem,
                                    depth,
                                    max_depth,
                                    marked,
                                );
                            },
                        }
                    }
                },
            }
        }
    }
}

/// An address once visited stays visited: printing any record body only
/// grows the visited set.
pub proof fn lemma_body_visited_monotone(
    r: RecordModel,
    mem: Seq<EntryModel>,
    depth: nat,
    max_depth: nat,
    visited: Set<u64>,
)
    ensures
        visited.subset_of(render_body(r, mem, depth, max_depth, visited).1),
    decreases max_depth - depth, 1int, 0int,
{
    lemma_fields_visited_monotone(r.fields, 0, mem, depth, max_depth, visited);
}

/// Cycle safety: a pointer field whose address was already visited prints a
/// single notice and is not followed — no read, no recursion, no change to
/// the visited set; the remaining siblings are processed as before.
pub proof fn lemma_already_visited_not_followed(
    fields: Seq<FieldModel>,
    i: int,
    mem: Seq<EntryModel>,
    depth: nat,
    max_depth: nat,
    visited: Set<u64>,
    addr: u64,
)
    requires
        0 <= i < fields.len(),
        depth < max_depth,
        !is_padding_name(fields[i].name),
        fields[i].value == FieldValueModel::Pointer(addr),
        visited.contains(addr),
    ensures
        render_fields(fields, i, mem, depth, max_depth, visited).0 == seq![
            visited_line(depth, fields[i].name, addr),
        ] + render_fields(fields, i + 1, mem, depth, max_depth, visited).0,
        render_fields(fields, i, mem, depth, max_depth, visited).1 == render_fields(
            fields,
            i + 1,
            mem,
            depth,
            max_depth,
            visited,
        ).1,
{
}

/// The addresses of the non-padding pointer fields from position `i` on.
pub open spec fn pointer_addresses(fields: Seq<FieldModel>, i: int) -> Set<u64> {
    Set::new(
        |a: u64|
            exists|k: int|
                i <= k < fields.len() && !is_padding_name((#[trigger] fields[k]).name)
                    && fields[k].value == FieldValueModel::Pointer(a),
    )
}

/// Cycle safety: after a run of fields is processed, the address of every
/// non-padding pointer field among them stands in the visited set, so any
/// later reference to it prints the already-visited notice instead of being
/// followed again.
pub proof fn lemma_followed_addresses_recorded(
    fields: Seq<FieldModel>,
    i: int,
    mem: Seq<EntryModel>,
    depth: nat,
    max_depth: nat,
    visited: Set<u64>,
)
    requires
        depth < max_depth,
        0 <= i,
    ensures
        pointer_addresses(fields, i).subset_of(
            render_fields(fields, i, mem, depth, max_depth, visited).1,
        ),
    decreases max_depth - depth, 0int, fields.len() - i,
{
    let reached = render_fields(fields, i, mem, depth, max_depth, visited).1;
    if i >= fields.len() {
        assert forall|a: u64| pointer_addresses(fields, i).contains(a) implies reached.contains(
            a,
        ) by {
            let k = choose|k: int|
                i <= k < fields.len() && !is_padding_name((#[trigger] fields[k]).name)
                    && fields[k].value == FieldValueModel::Pointer(a);
        }
    } else {
        let f = fields[i];
        let next = if is_padding_name(f.name) {
            visited
        } else {
            match f.value {
                FieldValueModel::Plain(_) => visited,
                FieldValueModel::Pointer(addr) => {
                    if visited.contains(addr) {
                        visited
                    } else {
                        let marked = visited.insert(addr);
                        match read_outcome(mem, addr) {
                            OutcomeModel::Value(target) => {
                                lemma_body_visited_monotone(
                                    target,
                                    mem,
                                    depth + 1,
                                    max_depth,
                                    marked,
                                );
                                render_body(target, mem, depth + 1, max_depth, marked).1
                            },
                            OutcomeModel::Fault(_) => marked,
                        }
                    }
                },
            }
        };
        lemma_followed_addresses_recorded(fields, i + 1, mem, depth, max_depth, next);
        lemma_fields_visited_monotone(fields, i + 1, mem, depth, max_depth, next);
        assert forall|a: u64| pointer_addresses(fields, i).contains(a) implies reached.contains(
            a,
        ) by {
            let k = choose|k: int|
                i <= k < fields.len() && !is_padding_name((#[trigger] fields[k]).name)
                    && fields[k].value == FieldValueModel::Pointer(a);
            if k == i {
                assert(next.contains(a));
            } else {
                assert(pointer_addresses(fields, i + 1).contains(a));
            }
        }
    }
}

/// Depth ceiling: with a ceiling of zero a traversal prints exactly the
/// root's opening line and closing delimiter, and nothing for any field.
pub proof fn lemma_depth_zero(r: RecordModel, mem: Seq<EntryModel>)
    ensures
        render_tree(r, mem, 0) == seq![open_line(r.type_label), close_line(0)],
{
    assert(render_fields(r.fields, 0, mem, 0, 0, Set::empty()).0 =~= Seq::<Seq<char>>::empty());
    assert(render_tree(r, mem, 0) =~= seq![open_line(r.type_label), close_line(0)]);
}

/// Depth ceiling: a record reached at or beyond the ceiling prints only its
/// closing delimiter — none of its fields produce output, none of its
/// pointers is followed, and the visited set is left unchanged.  With
/// a ceiling of one, pointer fields of the root are followed exactly one
/// level: the pointee's header appears but none of its fields.
pub proof fn lemma_body_at_ceiling(
    r: RecordModel,
    mem: Seq<EntryModel>,
    depth: nat,
    max_depth: nat,
    visited: Set<u64>,
)
    requires
        depth >= max_depth,
    ensures
        render_body(r, mem, depth, max_depth, visited).0 == seq![close_line(depth)],
        render_body(r, mem, depth, max_depth, visited).1 == visited,
{
    assert(render_fields(r.fields, 0, mem, depth, max_depth, visited).0 =~= Seq::<
        Seq<char>,
    >::empty());
    assert(Seq::<Seq<char>>::empty().push(close_line(depth)) =~= seq![close_line(depth)]);
}

/// Padding exclusion: a field whose name contains the padding marker
/// produces no output line and leaves the visited set untouched, whatever
/// its type; processing continues with the next field as if it were absent.
pub proof fn lemma_padding_field_skipped(
    fields: Seq<FieldModel>,
    i: int,
    mem: Seq<EntryModel>,
    depth: nat,
    max_depth: nat,
    visited: Set<u64>,
)
    requires
        0 <= i < fields.len(),
        depth < max_depth,
        is_padding_name(fields[i].name),
    ensures
        render_fields(fields, i, mem, depth, max_depth, visited) == render_fields(
            fields,
            i + 1,
            mem,
            depth,
            max_depth,
            visited,
        ),
{
}

/// Classification: in a well-formed field the name-based classification of
/// the type tag and the carried value agree, so a field of a recognized
/// pointer type is handled by the pointer-follow path exactly, and every
/// other field by the plain-print path.
pub proof fn lemma_classification(f: FieldModel)
    requires
        f.wf(),
    ensures
        (f.value is Pointer) <==> is_pointer_tag(f.type_tag),
{
}

/// Plain path: a non-padding field whose type tag is not pointer-valued
/// prints exactly its one name/type/value line and is never followed.
pub proof fn lemma_plain_field_prints_value(
    fields: Seq<FieldModel>,
    i: int,
    mem: Seq<EntryModel>,
    depth: nat,
    max_depth: nat,
    visited: Set<u64>,
    val: Seq<char>,
)
    requires
        0 <= i < fields.len(),
        depth < max_depth,
        !is_padding_name(fields[i].name),
        fields[i].value == FieldValueModel::Plain(val),
    ensures
        render_fields(fields, i, mem, depth, max_depth, visited).0 == seq![
            plain_line(depth, fields[i].name, fields[i].type_tag, val),
        ] + render_fields(fields, i + 1, mem, depth, max_depth, visited).0,
        render_fields(fields, i, mem, depth, max_depth, visited).1 == render_fields(
            fields,
            i + 1,
            mem,
            depth,
            max_depth,
            visited,
        ).1,
{
}

/// Error isolation: when reading a pointer field fails, one error notice is
/// printed for it and the remaining sibling fields are still processed in
/// full, with only the failed address added to the visited set.
pub proof fn lemma_read_error_isolated(
    fields: Seq<FieldModel>,
    i: int,
    mem: Seq<EntryModel>,
    depth: nat,
    max_depth: nat,
    visited: Set<u64>,
    addr: u64,
    msg: Seq<char>,
)
    requires
        0 <= i < fields.len(),
        depth < max_depth,
        !is_padding_name(fields[i].name),
        fields[i].value == FieldValueModel::Pointer(addr),
        !visited.contains(addr),
        read_outcome(mem, addr) == OutcomeModel::Fault(msg),
    ensures
        render_fields(fields, i, mem, depth, max_depth, visited).0 == seq![
            error_line(depth, fields[i].name, msg),
        ] + render_fields(fields, i + 1, mem, depth, max_depth, visited.insert(addr)).0,
        render_fields(fields, i, mem, depth, max_depth, visited).1 == render_fields(
            fields,
            i + 1,
            mem,
            depth,
            max_depth,
            visited.insert(addr),
        ).1,
{
}

/// Every record the memory can hand out has at most `width` fields.
pub open spec fn mem_width(mem: Seq<EntryModel>, width: nat) -> bool {
    forall|i: int|
        0 <= i < mem.len() ==> match (#[trigger] mem[i]).outcome {
            OutcomeModel::Value(r) => r.fields.len() <= width,
            OutcomeModel::Fault(_) => true,
        }
}

/// How many levels of pointer-following remain below `depth`.
pub open spec fn levels_left(depth: nat, max_depth: nat) -> nat {
    if depth < max_depth {
        (max_depth - depth) as nat
    } else {
        0
    }
}

/// The most lines one record body can print with `levels` levels of
/// pointer-following left and at most `width` fields per record.
pub open spec fn line_budget(levels: nat, width: nat) -> nat
    decreases levels,
{
    if levels == 0 {
        1
    } else {
        width * (1 + line_budget((levels - 1) as nat, width)) + 1
    }
}

proof fn lemma_lookup_width(mem: Seq<EntryModel>, i: int, addr: u64, width: nat)
    requires
        mem_width(mem, width),
    ensures
        match crate::memory::lookup_from(mem, i, addr) {
            OutcomeModel::Value(r) => r.fields.len() <= width,
            OutcomeModel::Fault(_) => true,
        },
    decreases mem.len() - i,
{
    if i < 0 || i >= mem.len() {
    } else if mem[i].addr == addr {
    } else {
        lemma_lookup_width(mem, i + 1, addr, width);
    }
}

proof fn lemma_fields_output_bounded(
    fields: Seq<FieldModel>,
    i: int,
    mem: Seq<EntryModel>,
    depth: nat,
    max_depth: nat,
    visited: Set<u64>,
    width: nat,
)
    requires
        0 <= i <= fields.len(),
        fields.len() <= width,
        mem_width(mem, width),
    ensures
        render_fields(fields, i, mem, depth, max_depth, visited).0.len() <= (fields.len() - i) * (
        1 + line_budget(levels_left(depth + 1, max_depth), width)),
    decreases max_depth - depth, 0int, fields.len() - i,
{
    let b = line_budget(levels_left(depth + 1, max_depth), width) as int;
    let left = fields.len() - i;
    if depth >= max_depth || i >= fields.len() {
        assert(left * (1 + b) >= 0) by (nonlinear_arith)
            requires
                left >= 0,
                b >= 0,
        ;
    } else {
        assert((left - 1) * (1 + b) + (1 + b) == left * (1 + b)) by (nonlinear_arith);
        let f = fields[i];
        if is_padding_name(f.name) {
            lemma_fields_output_bounded(fields, i + 1, mem, depth, max_depth, visited, width);
        } else {
            match f.value {
                FieldValueModel::Plain(_) => {
                    lemma_fields_output_bounded(
                        fields,
                        i + 1,
                        mem,
                        depth,
                        max_depth,
                        visited,
                        width,
                    );
                },
                FieldValueModel::Pointer(addr) => {
                    if visited.contains(addr) {
                        lemma_fields_output_bounded(
                            fields,
                            i + 1,
                            mem,
                            depth,
                            max_depth,
                            visited,
                            width,
                        );
                    } else {
                        let marked = visited.insert(addr);
                        match read_outcome(mem, addr) {
                            OutcomeModel::Value(target) => {
                                lemma_lookup_width(mem, 0, addr, width);
                                lemma_body_output_bounded(
                                    target,
                                    mem,
                                    depth + 1,
                                    max_depth,
                                    marked,
                                    width,
                                );
                                let sub = render_body(target, mem, depth + 1, max_depth, marked);
                                lemma_fields_output_bounded(
                                    fields,
                                    i + 1,
                                    mem,
                                    depth,
                                    max_depth,
                                    sub.1,
                                    width,
                                );
                            },
                            OutcomeModel::Fault(_) => {
                                lemma_fields_output_bounded(
                                    fields,
                                    i + 1,
                                    mem,
                                    depth,
                                    max_depth,
                                    marked,
                                    width,
                                );
                            },
                        }
                    }
                },
            }
        }
    }
}

proof fn lemma_body_output_bounded(
    r: RecordModel,
    mem: Seq<EntryModel>,
    depth: nat,
    max_depth: nat,
    visited: Set<u64>,
    width: nat,
)
    requires
        r.fields.len() <= width,
        mem_width(mem, width),
    ensures
        render_body(r, mem, depth, max_depth, visited).0.len() <= line_budget(
            levels_left(depth, max_depth),
            width,
        ),
    decreases max_depth - depth, 1int, 0int,
{
    let b = line_budget(levels_left(depth + 1, max_depth), width) as int;
    lemma_fields_output_bounded(r.fields, 0, mem, depth, max_depth, visited, width);
    if depth < max_depth {
        assert(r.fields.len() * (1 + b) <= width * (1 + b)) by (nonlinear_arith)
            requires
                0 <= r.fields.len() <= width,
                b >= 0,
        ;
    }
}

/// Termination: whatever the pointer graph — cyclic or not — and whatever
/// the depth ceiling, a traversal produces finitely many lines, at most a
/// bound computed from the ceiling and the widest record in play.
pub proof fn lemma_output_bounded(
    r: RecordModel,
    mem: Seq<EntryModel>,
    max_depth: nat,
    width: nat,
)
    requires
        r.fields.len() <= width,
        mem_width(mem, width),
    ensures
        render_tree(r, mem, max_depth).len() <= 1 + line_budget(
            levels_left(0, max_depth),
            width,
        ),
{
    lemma_body_output_bounded(r, mem, 0, max_depth, Set::empty(), width);
}

/// Idempotence: what a traversal prints is a function of the record, the
/// memory and the depth ceiling alone, so two traversals of the same
/// unmodified data with the same ceiling produce identical lines.
pub proof fn lemma_traversal_deterministic(
    first: Seq<Seq<char>>,
    second: Seq<Seq<char>>,
    r: RecordModel,
    mem: Seq<EntryModel>,
    max_depth: nat,
)
    requires
        first == render_tree(r, mem, max_depth),
        second == render_tree(r, mem, max_depth),
    ensures
        first == second,
{
}

} // verus!
