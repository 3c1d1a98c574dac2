//! The traversal engine: the executable walk over a record graph, proved to
//! print exactly the lines that [`crate::render`] specifies, and the traits
//! through which any field-visitable type is traversed polymorphically.

use vstd::prelude::*;
use vstd::string::*;
use crate::memory::Memory;
use crate::memory::ReadOutcome;
use crate::memory::mem_wf;
use crate::model::FieldValue;
use crate::model::Record;
use crate::model::RecordModel;
use crate::numfmt::addr_hex;
use crate::render::close_line;
use crate::render::error_line;
use crate::render::follow_line;
use crate::render::indent_sp;
use crate::render::lines_of;
use crate::render::open_line;
use crate::render::plain_line;
use crate::render::render_body;
use crate::render::render_fields;
use crate::render::render_tree;
use crate::render::visited_line;
use crate::text::name_is_padding;
use crate::visited::VisitedAddresses;

verus! {

/// The depth ceiling used when the caller names none.
pub const DEFAULT_MAX_DEPTH: usize = 5;

/// The indentation of a record printed at `depth`.
fn build_indent(depth: usize) -> (s: String)
    ensures
        s@ == indent_sp(depth as nat),
    decreases depth,
{
    if depth == 0 {
        String::new()
    } else {
        let mut s = build_indent(depth - 1);
        s.append("  ");
        s
    }
}

/// The line of a plain field.
fn build_plain_line(depth: usize, name: &String, tag: &String, val: &String) -> (s: String)
    ensures
        s@ == plain_line(depth as nat, name@, tag@, val@),
{
    let mut s = build_indent(depth);
    s.append("  ");
    s.append(name.as_str());
    s.append(": ");
    s.append(tag.as_str());
    s.append(" = ");
    s.append(val.as_str());
    s
}

/// The arrow-style header of a followed pointer field.
fn build_follow_line(depth: usize, name: &String, target_label: &String) -> (s: String)
    ensures
        s@ == follow_line(depth as nat, name@, target_label@),
{
    let mut s = build_indent(depth);
    s.append("  ");
    s.append(name.as_str());
    s.append("-> ");
    s.append(target_label.as_str());
    s.append(" {");
    s
}

/// The notice for an already-visited address.
fn build_visited_line(depth: usize, name: &String, addr: u64) -> (s: String)
    ensures
        s@ == visited_line(depth as nat, name@, addr),
{
    let mut s = build_indent(depth);
    s.append("  ");
    s.append(name.as_str());
    s.append(" → Already visited address ");
    let hex = addr_hex(addr);
    s.append(hex.as_str());
    s
}

/// The notice for a failed read.
fn build_error_line(depth: usize, name: &String, msg: &str) -> (s: String)
    ensures
        s@ == error_line(depth as nat, name@, msg@),
{
    let mut s = build_indent(depth);
    s.append("  ");
    s.append(name.as_str());
    s.append(" → Error reading: ");
    s.append(msg);
    s
}

/// The closing delimiter of a record printed at `depth`.
fn build_close_line(depth: usize) -> (s: String)
    ensures
        s@ == close_line(depth as nat),
{
    let mut s = build_indent(depth);
    s.append("}");
    s
}

impl Record {
    /// Process this record's fields from position `i` on, appending their
    /// lines to `out` and recording followed addresses in `visited`.
    fn visit_fields(
        &self,
        i: usize,
        mem: &Memory,
        depth: usize,
        max_depth: usize,
        visited: &mut VisitedAddresses,
        out: &mut Vec<String>,
    )
        requires
            depth < max_depth,
            i <= self.fields@.len(),
        ensures
            lines_of(final(out)@) == lines_of(old(out)@) + render_fields(
                self@.fields,
                i as int,
                mem@,
                depth as nat,
                max_depth as nat,
                old(visited)@,
            ).0,
            final(visited)@ == render_fields(
                self@.fields,
                i as int,
                mem@,
                depth as nat,
                max_depth as nat,
                old(visited)@,
            ).1,
        decreases max_depth - depth, 0int, self.fields@.len() - i,
    {
        let ghost pre_out = out@;
        let ghost pre_vis = visited@;
        if i == self.fields.len() {
            assert(lines_of(out@) =~= lines_of(pre_out) + Seq::<Seq<char>>::empty());
            return ;
        }
        let f = &self.fields[i];
        let ghost fm = self@.fields[i as int];
        if name_is_padding(f.name.as_str()) {
            self.visit_fields(i + 1, mem, depth, max_depth, visited, out);
            return ;
        }
        match &f.value {
            FieldValue::Plain(v) => {
                let line = build_plain_line(depth, &f.name, &f.type_tag, v);
                let ghost lv = line@;
                out.push(line);
                proof {
                    crate::render::lemma_lines_of_push(pre_out, line);
                }
                self.visit_fields(i + 1, mem, depth, max_depth, visited, out);
                proof {
                    let rest = render_fields(
                        self@.fields,
                        i + 1,
                        mem@,
                        depth as nat,
                        max_depth as nat,
                        pre_vis,
                    );
                    assert(lines_of(out@) =~= lines_of(pre_out) + (seq![lv] + rest.0));
                }
            },
            FieldValue::Pointer(a) => {
                let addr = *a;
                if visited.contains(addr) {
                    let line = build_visited_line(depth, &f.name, addr);
                    let ghost lv = line@;
                    out.push(line);
                    proof {
                        crate::render::lemma_lines_of_push(pre_out, line);
                    }
                    self.visit_fields(i + 1, mem, depth, max_depth, visited, out);
                    proof {
                        let rest = render_fields(
                            self@.fields,
                            i + 1,
                            mem@,
                            depth as nat,
                            max_depth as nat,
                            pre_vis,
                        );
                        assert(lines_of(out@) =~= lines_of(pre_out) + (seq![lv] + rest.0));
                    }
                } else {
                    visited.insert(addr);
                    match mem.find_entry(addr) {
                        Some(j) => {
                            match &mem.entries[j].outcome {
                                ReadOutcome::Value(target) => {
                                    let line = build_follow_line(depth, &f.name, &target.type_label);
                                    let ghost lv = line@;
                                    out.push(line);
                                    proof {
                                        crate::render::lemma_lines_of_push(pre_out, line);
                                    }
                                    target.visit_body(mem, depth + 1, max_depth, visited, out);
                                    let ghost sub = render_body(
                                        target@,
                                        mem@,
                                        (depth + 1) as nat,
                                        max_depth as nat,
                                        pre_vis.insert(addr),
                                    );
                                    self.visit_fields(i + 1, mem, depth, max_depth, visited, out);
                                    proof {
                                        let rest = render_fields(
                                            self@.fields,
                                            i + 1,
                                            mem@,
                                            depth as nat,
                                            max_depth as nat,
                                            sub.1,
                                        );
                                        assert(lines_of(out@) =~= lines_of(pre_out) + (seq![lv]
                                            + sub.0 + rest.0));
                                    }
                                },
                                ReadOutcome::Fault(msg) => {
                                    let line = build_error_line(depth, &f.name, msg.as_str());
                                    let ghost lv = line@;
                                    out.push(line);
                                    proof {
                                        crate::render::lemma_lines_of_push(pre_out, line);
                                    }
                                    self.visit_fields(i + 1, mem, depth, max_depth, visited, out);
                                    proof {
                                        let rest = render_fields(
                                            self@.fields,
                                            i + 1,
                                            mem@,
                                            depth as nat,
                                            max_depth as nat,
                                            pre_vis.insert(addr),
                                        );
                                        assert(lines_of(out@) =~= lines_of(pre_out) + (seq![lv]
                                            + rest.0));
                                    }
                                },
                            }
                        },
                        None => {
                            let line = build_error_line(depth, &f.name, "unmapped address");
                            let ghost lv = line@;
                            out.push(line);
                            proof {
                                crate::render::lemma_lines_of_push(pre_out, line);
                            }
                            self.visit_fields(i + 1, mem, depth, max_depth, visited, out);
                            proof {
                                let rest = render_fields(
                                    self@.fields,
                                    i + 1,
                                    mem@,
                                    depth as nat,
                                    max_depth as nat,
                                    pre_vis.insert(addr),
                                );
                                assert(lines_of(out@) =~= lines_of(pre_out) + (seq![lv] + rest.0));
                            }
                        },
                    }
                }
            },
        }
    }

    /// Print this record's body: its field lines, none at or beyond the
    /// depth ceiling, followed by its closing delimiter.
    fn visit_body(
        &self,
        mem: &Memory,
        depth: usize,
        max_depth: usize,
        visited: &mut VisitedAddresses,
        out: &mut Vec<String>,
    )
        ensures
            lines_of(final(out)@) == lines_of(old(out)@) + render_body(
                self@,
                mem@,
                depth as nat,
                max_depth as nat,
                old(visited)@,
            ).0,
            final(visited)@ == render_body(
                self@,
                mem@,
                depth as nat,
                max_depth as nat,
                old(visited)@,
            ).1,
        decreases max_depth - depth, 1int, 0int,
    {
        let ghost pre_out = out@;
        let ghost pre_vis = visited@;
        let ghost fl = render_fields(
            self@.fields,
            0,
            mem@,
            depth as nat,
            max_depth as nat,
            pre_vis,
        );
        if depth < max_depth {
            self.visit_fields(0, mem, depth, max_depth, visited, out);
        } else {
            assert(fl.0 =~= Seq::<Seq<char>>::empty());
            assert(lines_of(out@) =~= lines_of(pre_out) + fl.0);
        }
        let ghost mid_out = out@;
        let close = build_close_line(depth);
        let ghost cv = close@;
        out.push(close);
        proof {
            crate::render::lemma_lines_of_push(mid_out, close);
            assert(lines_of(out@) =~= lines_of(pre_out) + fl.0.push(cv));
        }
    }
}

/// A type whose values can be field-visited by the traversal engine.  Every
/// participating record type exposes the single visiting procedure through
/// this trait; [`Record`] carries the engine's own implementation, and any
/// other implementer describes itself as a record model.
pub trait DerefDebugPrint {
    /// The record this value describes.
    spec fn record_model(&self) -> RecordModel;

    /// The name of this value's type, as printed in the root's opening line.
    fn type_label(&self) -> (s: String)
        ensures
            s@ == self.record_model().type_label,
    ;

    /// Append this value's body lines to `out`: its field lines, with
    /// pointer fields resolved through `mem`, deduplicated by `visited` and
    /// cut off at `max_depth`, followed by its closing delimiter.
    fn pointer_debug_internal(
        &self,
        mem: &Memory,
        depth: usize,
        max_depth: usize,
        visited: &mut VisitedAddresses,
        out: &mut Vec<String>,
    )
        ensures
            lines_of(final(out)@) == lines_of(old(out)@) + render_body(
                self.record_model(),
                mem@,
                depth as nat,
                max_depth as nat,
                old(visited)@,
            ).0,
            final(visited)@ == render_body(
                self.record_model(),
                mem@,
                depth as nat,
                max_depth as nat,
                old(visited)@,
            ).1,
    ;
}

impl DerefDebugPrint for Record {
    open spec fn record_model(&self) -> RecordModel {
        self@
    }

    fn type_label(&self) -> (s: String) {
        self.type_label.clone()
    }

    fn pointer_debug_internal(
        &self,
        mem: &Memory,
        depth: usize,
        max_depth: usize,
        visited: &mut VisitedAddresses,
        out: &mut Vec<String>,
    ) {
        self.visit_body(mem, depth, max_depth, visited, out)
    }
}

/// The lines a traversal of a field-visitable value produces: the root's
/// opening line, then its fields, with pointer fields followed through the
/// memory, cycles broken by the per-call visited set, and recursion cut off
/// at the depth ceiling.
pub trait PointerPrint: DerefDebugPrint {
    /// The traversal's lines with the default depth ceiling.
    fn pointer_print(&self, mem: &Memory) -> (out: Vec<String>)
        requires
            self.record_model().wf(),
            mem_wf(mem@),
        ensures
            lines_of(out@) == render_tree(self.record_model(), mem@, DEFAULT_MAX_DEPTH as nat),
    ;

    /// The traversal's lines with the given depth ceiling; a ceiling of
    /// zero prints only the root's opening line and closing delimiter.
    fn pointer_print_with_depth(&self, mem: &Memory, max_depth: usize) -> (out: Vec<String>)
        requires
            self.record_model().wf(),
            mem_wf(mem@),
        ensures
            lines_of(out@) == render_tree(self.record_model(), mem@, max_depth as nat),
    ;
}

impl<T: DerefDebugPrint> PointerPrint for T {
    fn pointer_print(&self, mem: &Memory) -> (out: Vec<String>) {
        self.pointer_print_with_depth(mem, DEFAULT_MAX_DEPTH)
    }

    fn pointer_print_with_depth(&self, mem: &Memory, max_depth: usize) -> (out: Vec<String>) {
        let mut visited = VisitedAddresses::new();
        let mut out: Vec<String> = Vec::new();
        let mut header = self.type_label();
        header.append(" {");
        let ghost hv = header@;
        out.push(header);
        proof {
            assert(lines_of(out@) =~= seq![hv]);
        }
        self.pointer_debug_internal(mem, 0, max_depth, &mut visited, &mut out);
        proof {
            let body = render_body(self.record_model(), mem@, 0, max_depth as nat, Set::empty());
            assert(lines_of(out@) =~= seq![open_line(self.record_model().type_label)] + body.0);
        }
        out
    }
}

/// The traversal's lines for any field-visitable value, with the default
/// depth ceiling.
pub fn print_with_pointer_reading<T: DerefDebugPrint>(value: &T, mem: &Memory) -> (out: Vec<
    String,
>)
    requires
        value.record_model().wf(),
        mem_wf(mem@),
    ensures
        lines_of(out@) == render_tree(value.record_model(), mem@, DEFAULT_MAX_DEPTH as nat),
{
    value.pointer_print(mem)
}

} // verus!
