//! What a traversal prints, as a mathematical function of the root record,
//! the memory, the depth ceiling and the set of already-visited addresses.
//! The executable engine is proved to produce exactly these lines.

use vstd::prelude::*;
use crate::memory::EntryModel;
use crate::memory::OutcomeModel;
use crate::memory::read_outcome;
use crate::model::FieldModel;
use crate::model::FieldValueModel;
use crate::model::RecordModel;
use crate::numfmt::hex_addr;
use crate::text::is_padding_name;

verus! {

/// The indentation of a record printed at `depth`: two spaces per level.
pub open spec fn indent_sp(depth: nat) -> Seq<char>
    decreases depth,
{
    if depth == 0 {
        Seq::empty()
    } else {
        indent_sp((depth - 1) as nat) + "  "@
    }
}

/// The opening line of the root record.
pub open spec fn open_line(type_label: Seq<char>) -> Seq<char> {
    type_label + " {"@
}

/// The closing delimiter of a record printed at `depth`.
pub open spec fn close_line(depth: nat) -> Seq<char> {
    indent_sp(depth) + "}"@
}

/// The line of a plain field of a record printed at `depth`.
pub open spec fn plain_line(depth: nat, name: Seq<char>, tag: Seq<char>, val: Seq<char>) -> Seq<
    char,
> {
    indent_sp(depth) + "  "@ + name + ": "@ + tag + " = "@ + val
}

/// The arrow-style header of a successfully followed pointer field.
pub open spec fn follow_line(depth: nat, name: Seq<char>, target_label: Seq<char>) -> Seq<char> {
    indent_sp(depth) + "  "@ + name + "-> "@ + target_label + " {"@
}

/// The notice for a pointer field whose address was already visited.
pub open spec fn visited_line(depth: nat, name: Seq<char>, addr: u64) -> Seq<char> {
    indent_sp(depth) + "  "@ + name + " → Already visited address "@ + hex_addr(addr as nat)
}

/// The notice for a pointer field whose read failed.
pub open spec fn error_line(depth: nat, name: Seq<char>, msg: Seq<char>) -> Seq<char> {
    indent_sp(depth) + "  "@ + name + " → Error reading: "@ + msg
}

/// The lines for the fields of a record from position `i` on, processed in
/// declaration order at `depth`, together with the visited set as it stands
/// afterwards.  At the depth ceiling no field produces output.  A padding
/// field is skipped; a plain field prints one line; a pointer field prints
/// the already-visited notice, or marks its address visited and then either
/// prints a read-error notice or prints its arrow header followed by the
/// pointee's own body one level deeper.
pub open spec fn render_fields(
    fields: Seq<FieldModel>,
    i: int,
    mem: Seq<EntryModel>,
    depth: nat,
    max_depth: nat,
    visited: Set<u64>,
) -> (Seq<Seq<char>>, Set<u64>)
    decreases max_depth - depth, 0int, fields.len() - i,
{
    if depth >= max_depth || i < 0 || i >= fields.len() {
        (Seq::empty(), visited)
    } else {
        let f = fields[i];
        if is_padding_name(f.name) {
            render_fields(fields, i + 1, mem, depth, max_depth, visited)
        } else {
            match f.value {
                FieldValueModel::Plain(v) => {
                    let rest = render_fields(fields, i + 1, mem, depth, max_depth, visited);
                    (seq![plain_line(depth, f.name, f.type_tag, v)] + rest.0, rest.1)
                },
                FieldValueModel::Pointer(addr) => {
                    if visited.contains(addr) {
                        let rest = render_fields(fields, i + 1, mem, depth, max_depth, visited);
                        (seq![visited_line(depth, f.name, addr)] + rest.0, rest.1)
                    } else {
                        let marked = visited.insert(addr);
                        match read_outcome(mem, addr) {
                            OutcomeModel::Value(target) => {
                                let sub = render_body(target, mem, depth + 1, max_depth, marked);
                                let rest = render_fields(
                                    fields,
                                    i + 1,
                                    mem,
                                    depth,
                                    max_depth,
                                    sub.1,
                                );
                                (
                                    seq![follow_line(depth, f.name, target.type_label)] + sub.0
                                        + rest.0,
                                    rest.1,
                                )
                            },
                            OutcomeModel::Fault(msg) => {
                                let rest = render_fields(
                                    fields,
                                    i + 1,
                                    mem,
                                    depth,
                                    max_depth,
                                    marked,
                                );
                                (seq![error_line(depth, f.name, msg)] + rest.0, rest.1)
                            },
                        }
                    }
                },
            }
        }
    }
}

/// The body of a record printed at `depth`: its field lines (none at or
/// beyond the depth ceiling) followed by its closing delimiter, together
/// with the visited set as it stands afterwards.
pub open spec fn render_body(
    r: RecordModel,
    mem: Seq<EntryModel>,
    depth: nat,
    max_depth: nat,
    visited: Set<u64>,
) -> (Seq<Seq<char>>, Set<u64>)
    decreases max_depth - depth, 1int, 0int,
{
    let fl = render_fields(r.fields, 0, mem, depth, max_depth, visited);
    (fl.0.push(close_line(depth)), fl.1)
}

/// Everything one top-level traversal prints: the root's opening line, then
/// its body, starting from a fresh, empty visited set.
pub open spec fn render_tree(r: RecordModel, mem: Seq<EntryModel>, max_depth: nat) -> Seq<
    Seq<char>,
> {
    seq![open_line(r.type_label)] + render_body(r, mem, 0, max_depth, Set::empty()).0
}

/// The views of a vector of printed lines.
pub open spec fn lines_of(ss: Seq<String>) -> Seq<Seq<char>> {
    ss.map_values(|s: String| s@)
}

/// Taking views commutes with appending one line.
pub proof fn lemma_lines_of_push(ss: Seq<String>, x: String)
    ensures
        lines_of(ss.push(x)) == lines_of(ss).push(x@),
{
    assert(lines_of(ss.push(x)) =~= lines_of(ss).push(x@));
}

} // verus!
