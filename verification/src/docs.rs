//! Human-readable documentation of a configuration type.
//!
//! Instead of runtime reflection, each configuration type is described by an
//! explicit, hand-written table of its fields: name, type description, doc
//! lines and the textual form of its default value. Rendering that table
//! produces the same annotated dump a maintainer would write by hand:
//! the type's doc lines, its source kind, and one block per field.

use vstd::prelude::*;

verus! {

/// Documentation of one field of a configuration type.
pub struct FieldDoc {
    /// The field's name.
    pub name: String,
    /// Description of the field's type.
    pub type_text: String,
    /// Human-authored doc lines for the field.
    pub doc_lines: Vec<String>,
    /// The field's default value, already formatted as text.
    pub default_text: String,
}

/// Mathematical model of a [`FieldDoc`].
pub struct FieldDocModel {
    pub name: Seq<char>,
    pub type_text: Seq<char>,
    pub doc_lines: Seq<Seq<char>>,
    pub default_text: Seq<char>,
}

impl View for FieldDoc {
    type V = FieldDocModel;

    open spec fn view(&self) -> FieldDocModel {
        FieldDocModel {
            name: self.name@,
            type_text: self.type_text@,
            doc_lines: self.doc_lines.deep_view(),
            default_text: self.default_text@,
        }
    }
}

impl DeepView for FieldDoc {
    type V = FieldDocModel;

    open spec fn deep_view(&self) -> FieldDocModel {
        self.view()
    }
}

/// Documentation of a whole configuration type.
pub struct TypeDocs {
    /// The type's name.
    pub name: String,
    /// Human-authored doc lines for the type.
    pub doc_lines: Vec<String>,
    /// The source location the type is loaded from; empty for a nested
    /// type that is not itself loaded from a file.
    pub path: String,
    /// One entry per field, in declaration order.
    pub fields: Vec<FieldDoc>,
}

/// Mathematical model of a [`TypeDocs`].
pub struct TypeDocsModel {
    pub name: Seq<char>,
    pub doc_lines: Seq<Seq<char>>,
    pub path: Seq<char>,
    pub fields: Seq<FieldDocModel>,
}

impl View for TypeDocs {
    type V = TypeDocsModel;

    open spec fn view(&self) -> TypeDocsModel {
        TypeDocsModel {
            name: self.name@,
            doc_lines: self.doc_lines.deep_view(),
            path: self.path@,
            fields: self.fields.deep_view(),
        }
    }
}

/// Doc lines rendered as a block of `/// ` comments behind `indent`.
pub open spec fn rendered_doc_lines(indent: Seq<char>, lines: Seq<Seq<char>>) -> Seq<char>
    decreases lines.len(),
{
    if lines.len() == 0 {
        Seq::<char>::empty()
    } else {
        indent + "/// "@ + lines[0] + "\n"@ + rendered_doc_lines(indent, lines.drop_first())
    }
}

/// One field rendered: its doc lines, its type line, and its
/// `name: default,` line, with a blank line after every field but the last.
pub open spec fn rendered_field(f: FieldDocModel, last: bool) -> Seq<char> {
    rendered_doc_lines("  "@, f.doc_lines) + "  /// - type: "@ + f.type_text + "\n"@ + "  "@
        + f.name + ": "@ + f.default_text + (if last {
        ",\n"@
    } else {
        ",\n\n"@
    })
}

/// All fields rendered in order.
pub open spec fn rendered_fields(fields: Seq<FieldDocModel>) -> Seq<char>
    decreases fields.len(),
{
    if fields.len() == 0 {
        Seq::<char>::empty()
    } else {
        rendered_field(fields[0], fields.len() == 1) + rendered_fields(fields.drop_first())
    }
}

/// The whole dump: the type's doc lines, its source kind (an asset read
/// from a path, or a nested type), and its fields between `Name (` and `)`.
pub open spec fn rendered_docs(t: TypeDocsModel) -> Seq<char> {
    rendered_doc_lines(Seq::<char>::empty(), t.doc_lines) + (if t.path.len() > 0 {
        "/// - type: Asset\n/// - path: "@ + t.path + "\n"@
    } else {
        "/// - type: Nested\n"@
    }) + t.name + " (\n"@ + rendered_fields(t.fields) + ")\n"@
}

/// Append the doc lines of one block, each as `indent/// line`.
fn push_doc_lines(out: &mut String, indent: &str, lines: &Vec<String>)
    ensures
        final(out)@ == old(out)@ + rendered_doc_lines(indent@, lines.deep_view()),
{
    let ghost all = lines.deep_view();
    let n = lines.len();
    let mut k: usize = 0;
    proof {
        assert(all.skip(0) =~= all);
    }
    while k < n
        invariant
            n == lines@.len(),
            all == lines.deep_view(),
            k <= n,
            out@ + rendered_doc_lines(indent@, all.skip(k as int)) == old(out)@
                + rendered_doc_lines(indent@, all),
        decreases n - k,
    {
        let ghost before = out@;
        out.append(indent);
        out.append("/// ");
        out.append(lines[k].as_str());
        out.append("\n");
        proof {
            assert(all.skip(k as int)[0] == all[k as int]);
            assert(all.skip(k as int).drop_first() =~= all.skip(k as int + 1));
            assert(out@ =~= before + (indent@ + "/// "@ + all[k as int] + "\n"@));
            assert(out@ + rendered_doc_lines(indent@, all.skip(k as int + 1)) =~= before
                + rendered_doc_lines(indent@, all.skip(k as int)));
        }
        k += 1;
    }
    proof {
        assert(all.skip(n as int) =~= Seq::<Seq<char>>::empty());
        assert(out@ + rendered_doc_lines(indent@, all.skip(n as int)) =~= out@);
    }
}

/// Append one rendered field.
fn push_field(out: &mut String, f: &FieldDoc, last: bool)
    ensures
        final(out)@ == old(out)@ + rendered_field(f@, last),
{
    push_doc_lines(out, "  ", &f.doc_lines);
    out.append("  /// - type: ");
    out.append(f.type_text.as_str());
    out.append("\n");
    out.append("  ");
    out.append(f.name.as_str());
    out.append(": ");
    out.append(f.default_text.as_str());
    if last {
        out.append(",\n");
    } else {
        out.append(",\n\n");
    }
    proof {
        assert(out@ =~= old(out)@ + rendered_field(f@, last));
    }
}

/// Render a configuration type's documentation dump.
pub fn render_docs(t: &TypeDocs) -> (r: String)
    ensures
        r@ == rendered_docs(t@),
{
    let mut out = String::new();
    proof {
        reveal_strlit("");
        assert(""@ =~= Seq::<char>::empty());
    }
    push_doc_lines(&mut out, "", &t.doc_lines);
    if !t.path.as_str().is_empty() {
        out.append("/// - type: Asset\n/// - path: ");
        out.append(t.path.as_str());
        out.append("\n");
    } else {
        out.append("/// - type: Nested\n");
    }
    out.append(t.name.as_str());
    out.append(" (\n");
    let ghost fields_all = t.fields.deep_view();
    let ghost head = out@;
    let n = t.fields.len();
    let mut k: usize = 0;
    proof {
        assert(fields_all.skip(0) =~= fields_all);
    }
    while k < n
        invariant
            n == t.fields@.len(),
            fields_all == t.fields.deep_view(),
            k <= n,
            out@ + rendered_fields(fields_all.skip(k as int)) == head + rendered_fields(
                fields_all,
            ),
        decreases n - k,
    {
        let ghost before = out@;
        push_field(&mut out, &t.fields[k], k == n - 1);
        proof {
            assert(fields_all.skip(k as int)[0] == fields_all[k as int]);
            assert(fields_all.skip(k as int).drop_first() =~= fields_all.skip(k as int + 1));
            assert(fields_all.skip(k as int).len() == 1 <==> k as int == n - 1);
            assert(out@ + rendered_fields(fields_all.skip(k as int + 1)) =~= before
                + rendered_fields(fields_all.skip(k as int)));
        }
        k += 1;
    }
    proof {
        assert(fields_all.skip(n as int) =~= Seq::<FieldDocModel>::empty());
        assert(out@ + rendered_fields(fields_all.skip(n as int)) =~= out@);
    }
    out.append(")\n");
    proof {
        assert(out@ =~= rendered_docs(t@));
    }
    out
}

} // verus!
