//! A raw text writer for the format revision that carries macros: it
//! renders values into an owned text buffer, opening with the version
//! marker. Callers that need to put the text on a wire or a file hand the
//! finished buffer to their own output. Values are rendered in the compact
//! style: top-level values separated by single spaces, list and struct
//! items by comma-space, s-expression items by single spaces.

use vstd::prelude::*;

use crate::table::decimal_digits;
use crate::value::IonType;

verus! {

/// The digits of `v` in decimal, with a leading minus sign when negative.
pub open spec fn int_text(v: int) -> Seq<char> {
    if v < 0 {
        seq!['-'] + decimal_digits(-v)
    } else {
        decimal_digits(v)
    }
}

/// Renders a non-negative number in decimal.
fn u64_text(n: u64) -> (s: String)
    ensures
        s@ == decimal_digits(n as int),
    decreases n,
{
    let digit = n % 10;
    let ds: &str = match digit {
        0 => "0",
        1 => "1",
        2 => "2",
        3 => "3",
        4 => "4",
        5 => "5",
        6 => "6",
        7 => "7",
        8 => "8",
        _ => "9",
    };
    proof {
        reveal_strlit("0");
        reveal_strlit("1");
        reveal_strlit("2");
        reveal_strlit("3");
        reveal_strlit("4");
        reveal_strlit("5");
        reveal_strlit("6");
        reveal_strlit("7");
        reveal_strlit("8");
        reveal_strlit("9");
    }
    assert(ds@ == seq![crate::table::decimal_digit(n as int % 10)]);
    if n < 10 {
        ds.to_owned()
    } else {
        let mut s = u64_text(n / 10);
        s.append(ds);
        assert(s@ =~= decimal_digits(n as int / 10).push(crate::table::decimal_digit(
            n as int % 10)));
        s
    }
}

/// Renders a signed number in decimal.
fn i64_text(v: i64) -> (s: String)
    ensures
        s@ == int_text(v as int),
{
    if v >= 0 {
        u64_text(v as u64)
    } else {
        let magnitude: u64 = if v == i64::MIN {
            9223372036854775808u64
        } else {
            (-v) as u64
        };
        let mut s = String::from_str("-");
        proof {
            reveal_strlit("-");
        }
        s.append(u64_text(magnitude).as_str());
        assert(s@ =~= seq!['-'] + decimal_digits(magnitude as int));
        s
    }
}

/// The keyword a null of type `t` is written with.
pub open spec fn null_text(t: IonType) -> Seq<char> {
    match t {
        IonType::Null => "null"@,
        IonType::Bool => "null.bool"@,
        IonType::Int => "null.int"@,
        IonType::Float => "null.float"@,
        IonType::Decimal => "null.decimal"@,
        IonType::Timestamp => "null.timestamp"@,
        IonType::Symbol => "null.symbol"@,
        IonType::String => "null.string"@,
        IonType::Clob => "null.clob"@,
        IonType::Blob => "null.blob"@,
        IonType::List => "null.list"@,
        IonType::SExp => "null.sexp"@,
        IonType::Struct => "null.struct"@,
    }
}

fn null_keyword(t: IonType) -> (s: &'static str)
    ensures
        s@ == null_text(t),
{
    match t {
        IonType::Null => "null",
        IonType::Bool => "null.bool",
        IonType::Int => "null.int",
        IonType::Float => "null.float",
        IonType::Decimal => "null.decimal",
        IonType::Timestamp => "null.timestamp",
        IonType::Symbol => "null.symbol",
        IonType::String => "null.string",
        IonType::Clob => "null.clob",
        IonType::Blob => "null.blob",
        IonType::List => "null.list",
        IonType::SExp => "null.sexp",
        IonType::Struct => "null.struct",
    }
}

/// Text that the writer can emit between quotes or as a symbol without
/// escaping: no quote, no backslash, no control character.
pub open spec fn needs_no_escape(s: Seq<char>) -> bool {
    forall|i: int| 0 <= i < s.len() ==> (#[trigger] s[i]) != '"' && s[i] != '\\' && s[i] as u32 >= 32
}

/// The kinds of container the writer can be inside.
#[derive(Clone, Copy, Debug, PartialEq, Eq, Structural)]
pub enum ContainerKind {
    List,
    SExp,
    Struct,
}

/// One open container: its kind, and whether anything has been written
/// inside it yet (which decides whether a separator precedes the next
/// item).
#[derive(Clone, Copy, Debug, PartialEq, Eq, Structural)]
pub struct Frame {
    pub kind: ContainerKind,
    pub has_items: bool,
}

/// A raw text writer: an output buffer, the stack of containers currently
/// open, and whether a struct field name has been written whose value is
/// still owed.
pub struct LazyRawTextWriter_1_1 {
    output: String,
    frames: Vec<Frame>,
    pending_field_value: bool,
}

impl LazyRawTextWriter_1_1 {
    /// The text written so far.
    pub closed spec fn spec_output(&self) -> Seq<char> {
        self.output@
    }

    /// The containers currently open, outermost first.
    pub closed spec fn spec_frames(&self) -> Seq<Frame> {
        self.frames@
    }

    /// Whether a struct field name awaits its value.
    pub closed spec fn spec_pending_field_value(&self) -> bool {
        self.pending_field_value
    }

    /// A field value can only be owed to an open struct.
    pub open spec fn wf(&self) -> bool {
        self.spec_pending_field_value() ==> self.spec_frames().len() > 0
            && self.spec_frames().last().kind == ContainerKind::Struct
    }

    /// A value may be written at the top level, directly inside a list or
    /// s-expression, or as the owed value of a struct field.
    pub open spec fn can_write_value(&self) -> bool {
        if self.spec_frames().len() == 0 {
            true
        } else if self.spec_frames().last().kind == ContainerKind::Struct {
            self.spec_pending_field_value()
        } else {
            true
        }
    }

    /// What the writer emits before the next value: a separator when a
    /// list or s-expression already has items, nothing otherwise.
    pub open spec fn value_prefix(&self) -> Seq<char> {
        if self.spec_frames().len() == 0 {
            Seq::empty()
        } else {
            let frame = self.spec_frames().last();
            match frame.kind {
                ContainerKind::List => if frame.has_items {
                    ", "@
                } else {
                    Seq::empty()
                },
                ContainerKind::SExp => if frame.has_items {
                    " "@
                } else {
                    Seq::empty()
                },
                ContainerKind::Struct => Seq::empty(),
            }
        }
    }

    /// What the writer emits after a whole top-level value: the space that
    /// separates top-level values.
    pub open spec fn value_suffix(&self) -> Seq<char> {
        if self.spec_frames().len() == 0 {
            " "@
        } else {
            Seq::empty()
        }
    }

    /// The writer's container stack after a value has been written into
    /// it: the innermost frame has items, and no field value is owed.
    pub open spec fn frames_after_value(&self) -> Seq<Frame> {
        if self.spec_frames().len() == 0 {
            self.spec_frames()
        } else {
            self.spec_frames().update(
                self.spec_frames().len() - 1,
                Frame { kind: self.spec_frames().last().kind, has_items: true },
            )
        }
    }

    /// A fresh writer: the output opens with the version marker, followed
    /// by the top-level separator.
    pub fn new() -> (w: Self)
        ensures
            w.wf(),
            w.spec_output() == "$ion_1_1 "@,
            w.spec_frames() == Seq::<Frame>::empty(),
            !w.spec_pending_field_value(),
    {
        LazyRawTextWriter_1_1 {
            output: String::from_str("$ion_1_1 "),
            frames: Vec::new(),
            pending_field_value: false,
        }
    }

    /// Appends `text` in value position and does the separator and frame
    /// bookkeeping shared by every value write.
    fn push_value_text(&mut self, text: &str)
        requires
            old(self).wf(),
            old(self).can_write_value(),
        ensures
            final(self).wf(),
            final(self).spec_output() == old(self).spec_output() + old(self).value_prefix()
                + text@ + old(self).value_suffix(),
            final(self).spec_frames() == old(self).frames_after_value(),
            !final(self).spec_pending_field_value(),
    {
        let depth = self.frames.len();
        if depth > 0 {
            let frame = self.frames[depth - 1];
            match frame.kind {
                ContainerKind::List => {
                    if frame.has_items {
                        self.output.append(", ");
                    }
                },
                ContainerKind::SExp => {
                    if frame.has_items {
                        self.output.append(" ");
                    }
                },
                ContainerKind::Struct => {},
            }
            self.output.append(text);
            self.frames.set(depth - 1, Frame { kind: frame.kind, has_items: true });
            self.pending_field_value = false;
            proof {
                reveal_strlit(", ");
                reveal_strlit(" ");
                assert(final(self).spec_output() =~= old(self).spec_output() + old(
                    self).value_prefix() + text@ + old(self).value_suffix());
                assert(final(self).spec_frames() =~= old(self).frames_after_value());
            }
        } else {
            self.output.append(text);
            self.output.append(" ");
            self.pending_field_value = false;
            proof {
                reveal_strlit(" ");
                assert(final(self).spec_output() =~= old(self).spec_output() + old(
                    self).value_prefix() + text@ + old(self).value_suffix());
            }
        }
    }

    /// Writes a null of the given type.
    pub fn write_null(&mut self, t: IonType)
        requires
            old(self).wf(),
            old(self).can_write_value(),
        ensures
            final(self).wf(),
            final(self).spec_output() == old(self).spec_output() + old(self).value_prefix()
                + null_text(t) + old(self).value_suffix(),
            final(self).spec_frames() == old(self).frames_after_value(),
            !final(self).spec_pending_field_value(),
    {
        self.push_value_text(null_keyword(t));
    }

    /// Writes a boolean value.
    pub fn write_bool(&mut self, b: bool)
        requires
            old(self).wf(),
            old(self).can_write_value(),
        ensures
            final(self).wf(),
            final(self).spec_output() == old(self).spec_output() + old(self).value_prefix() + (
            if b {
                "true"@
            } else {
                "false"@
            }) + old(self).value_suffix(),
            final(self).spec_frames() == old(self).frames_after_value(),
            !final(self).spec_pending_field_value(),
    {
        let text: &str = if b {
            "true"
        } else {
            "false"
        };
        proof {
            reveal_strlit("true");
            reveal_strlit("false");
        }
        self.push_value_text(text);
    }

    /// Writes an integer value in decimal.
    pub fn write_i64(&mut self, v: i64)
        requires
            old(self).wf(),
            old(self).can_write_value(),
        ensures
            final(self).wf(),
            final(self).spec_output() == old(self).spec_output() + old(self).value_prefix()
                + int_text(v as int) + old(self).value_suffix(),
            final(self).spec_frames() == old(self).frames_after_value(),
            !final(self).spec_pending_field_value(),
    {
        let text = i64_text(v);
        self.push_value_text(text.as_str());
    }

    /// Writes a string value between double quotes. The text must need no
    /// escaping; escape sequences are not produced.
    pub fn write_string(&mut self, s: &str)
        requires
            old(self).wf(),
            old(self).can_write_value(),
            needs_no_escape(s@),
        ensures
            final(self).wf(),
            final(self).spec_output() == old(self).spec_output() + old(self).value_prefix()
                + "\""@ + s@ + "\""@ + old(self).value_suffix(),
            final(self).spec_frames() == old(self).frames_after_value(),
            !final(self).spec_pending_field_value(),
    {
        let mut text = String::from_str("\"");
        text.append(s);
        text.append("\"");
        proof {
            reveal_strlit("\"");
            assert(text@ =~= "\""@ + s@ + "\""@);
        }
        self.push_value_text(text.as_str());
        proof {
            assert(final(self).spec_output() =~= old(self).spec_output() + old(
                self).value_prefix() + "\""@ + s@ + "\""@ + old(self).value_suffix());
        }
    }

    /// Writes a symbol value as bare text. The text must need no escaping
    /// or quoting.
    pub fn write_symbol(&mut self, s: &str)
        requires
            old(self).wf(),
            old(self).can_write_value(),
            needs_no_escape(s@),
        ensures
            final(self).wf(),
            final(self).spec_output() == old(self).spec_output() + old(self).value_prefix() + s@
                + old(self).value_suffix(),
            final(self).spec_frames() == old(self).frames_after_value(),
            !final(self).spec_pending_field_value(),
    {
        self.push_value_text(s);
    }

    /// Writes a struct field's name, followed by `: `; the field's value
    /// is owed next.
    pub fn field_name(&mut self, name: &str)
        requires
            old(self).wf(),
            old(self).spec_frames().len() > 0,
            old(self).spec_frames().last().kind == ContainerKind::Struct,
            !old(self).spec_pending_field_value(),
            needs_no_escape(name@),
        ensures
            final(self).wf(),
            final(self).spec_output() == old(self).spec_output() + (
            if old(self).spec_frames().last().has_items {
                ", "@
            } else {
                Seq::<char>::empty()
            }) + name@ + ": "@,
            final(self).spec_frames() == old(self).frames_after_value(),
            final(self).spec_pending_field_value(),
    {
        let depth = self.frames.len();
        let frame = self.frames[depth - 1];
        if frame.has_items {
            self.output.append(", ");
        }
        self.output.append(name);
        self.output.append(": ");
        self.frames.set(depth - 1, Frame { kind: frame.kind, has_items: true });
        self.pending_field_value = true;
        proof {
            reveal_strlit(", ");
            reveal_strlit(": ");
            assert(final(self).spec_frames() =~= old(self).frames_after_value());
            if old(self).spec_frames().last().has_items {
                assert(final(self).spec_output() =~= old(self).spec_output() + ", "@ + name@
                    + ": "@);
            } else {
                assert(final(self).spec_output() =~= old(self).spec_output()
                    + Seq::<char>::empty() + name@ + ": "@);
            }
        }
    }

    /// Opens a container of the given kind in value position.
    fn begin_container(&mut self, kind: ContainerKind, opener: &str)
        requires
            old(self).wf(),
            old(self).can_write_value(),
        ensures
            final(self).wf(),
            final(self).spec_output() == old(self).spec_output() + old(self).value_prefix()
                + opener@,
            final(self).spec_frames() == old(self).frames_after_value().push(
                Frame { kind, has_items: false }),
            !final(self).spec_pending_field_value(),
    {
        let depth = self.frames.len();
        if depth > 0 {
            let frame = self.frames[depth - 1];
            match frame.kind {
                ContainerKind::List => {
                    if frame.has_items {
                        self.output.append(", ");
                    }
                },
                ContainerKind::SExp => {
                    if frame.has_items {
                        self.output.append(" ");
                    }
                },
                ContainerKind::Struct => {},
            }
            self.frames.set(depth - 1, Frame { kind: frame.kind, has_items: true });
        }
        self.output.append(opener);
        self.frames.push(Frame { kind, has_items: false });
        self.pending_field_value = false;
        proof {
            reveal_strlit(", ");
            reveal_strlit(" ");
            assert(final(self).spec_output() =~= old(self).spec_output() + old(
                self).value_prefix() + opener@);
            assert(final(self).spec_frames() =~= old(self).frames_after_value().push(
                Frame { kind, has_items: false }));
        }
    }

    /// Closes the innermost container with `closer`, and adds the
    /// top-level separator when the writer returns to the top level.
    fn end_container(&mut self, kind: ContainerKind, closer: &str)
        requires
            old(self).wf(),
            old(self).spec_frames().len() > 0,
            old(self).spec_frames().last().kind == kind,
            !old(self).spec_pending_field_value(),
        ensures
            final(self).wf(),
            final(self).spec_output() == old(self).spec_output() + closer@ + (
            if old(self).spec_frames().len() == 1 {
                " "@
            } else {
                Seq::<char>::empty()
            }),
            final(self).spec_frames() == old(self).spec_frames().drop_last(),
            !final(self).spec_pending_field_value(),
    {
        self.output.append(closer);
        let _ = self.frames.pop();
        if self.frames.len() == 0 {
            self.output.append(" ");
        }
        proof {
            reveal_strlit(" ");
            if old(self).spec_frames().len() == 1 {
                assert(final(self).spec_output() =~= old(self).spec_output() + closer@ + " "@);
            } else {
                assert(final(self).spec_output() =~= old(self).spec_output() + closer@
                    + Seq::<char>::empty());
            }
        }
    }

    /// Opens a list in value position.
    pub fn begin_list(&mut self)
        requires
            old(self).wf(),
            old(self).can_write_value(),
        ensures
            final(self).wf(),
            final(self).spec_output() == old(self).spec_output() + old(self).value_prefix()
                + "["@,
            final(self).spec_frames() == old(self).frames_after_value().push(
                Frame { kind: ContainerKind::List, has_items: false }),
            !final(self).spec_pending_field_value(),
    {
        proof {
            reveal_strlit("[");
        }
        self.begin_container(ContainerKind::List, "[");
    }

    /// Closes the innermost list.
    pub fn end_list(&mut self)
        requires
            old(self).wf(),
            old(self).spec_frames().len() > 0,
            old(self).spec_frames().last().kind == ContainerKind::List,
        ensures
            final(self).wf(),
            final(self).spec_output() == old(self).spec_output() + "]"@ + (
            if old(self).spec_frames().len() == 1 {
                " "@
            } else {
                Seq::<char>::empty()
            }),
            final(self).spec_frames() == old(self).spec_frames().drop_last(),
            !final(self).spec_pending_field_value(),
    {
        proof {
            reveal_strlit("]");
        }
        self.end_container(ContainerKind::List, "]");
    }

    /// Opens an s-expression in value position.
    pub fn begin_sexp(&mut self)
        requires
            old(self).wf(),
            old(self).can_write_value(),
        ensures
            final(self).wf(),
            final(self).spec_output() == old(self).spec_output() + old(self).value_prefix()
                + "("@,
            final(self).spec_frames() == old(self).frames_after_value().push(
                Frame { kind: ContainerKind::SExp, has_items: false }),
            !final(self).spec_pending_field_value(),
    {
        proof {
            reveal_strlit("(");
        }
        self.begin_container(ContainerKind::SExp, "(");
    }

    /// Closes the innermost s-expression.
    pub fn end_sexp(&mut self)
        requires
            old(self).wf(),
            old(self).spec_frames().len() > 0,
            old(self).spec_frames().last().kind == ContainerKind::SExp,
        ensures
            final(self).wf(),
            final(self).spec_output() == old(self).spec_output() + ")"@ + (
            if old(self).spec_frames().len() == 1 {
                " "@
            } else {
                Seq::<char>::empty()
            }),
            final(self).spec_frames() == old(self).spec_frames().drop_last(),
            !final(self).spec_pending_field_value(),
    {
        proof {
            reveal_strlit(")");
        }
        self.end_container(ContainerKind::SExp, ")");
    }

    /// Opens a struct in value position.
    pub fn begin_struct(&mut self)
        requires
            old(self).wf(),
            old(self).can_write_value(),
        ensures
            final(self).wf(),
            final(self).spec_output() == old(self).spec_output() + old(self).value_prefix()
                + "{"@,
            final(self).spec_frames() == old(self).frames_after_value().push(
                Frame { kind: ContainerKind::Struct, has_items: false }),
            !final(self).spec_pending_field_value(),
    {
        proof {
            reveal_strlit("{");
        }
        self.begin_container(ContainerKind::Struct, "{");
    }

    /// Closes the innermost struct. A written field name must not be left
    /// without its value.
    pub fn end_struct(&mut self)
        requires
            old(self).wf(),
            old(self).spec_frames().len() > 0,
            old(self).spec_frames().last().kind == ContainerKind::Struct,
            !old(self).spec_pending_field_value(),
        ensures
            final(self).wf(),
            final(self).spec_output() == old(self).spec_output() + "}"@ + (
            if old(self).spec_frames().len() == 1 {
                " "@
            } else {
                Seq::<char>::empty()
            }),
            final(self).spec_frames() == old(self).spec_frames().drop_last(),
            !final(self).spec_pending_field_value(),
    {
        proof {
            reveal_strlit("}");
        }
        self.end_container(ContainerKind::Struct, "}");
    }

    /// Finishes writing: hands the buffer back. Every container must be
    /// closed.
    pub fn close(self) -> (out: String)
        requires
            self.spec_frames().len() == 0,
        ensures
            out@ == self.spec_output(),
    {
        self.output
    }

    /// The text written so far, for inspection without finishing.
    pub fn output(&self) -> (out: &str)
        ensures
            out@ == self.spec_output(),
    {
        self.output.as_str()
    }
}

} // verus!
