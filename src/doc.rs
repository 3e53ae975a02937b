use vstd::prelude::*;

verus! {

/// The source text of a string literal that holds `s`, as proc-macro2's own
/// printer writes it (outside a procedural macro, where this library runs).
pub uninterp spec fn string_literal_text(s: Seq<char>) -> Seq<char>;

/// Relies on `proc_macro2::Literal::string`, which builds a string literal
/// holding `s`, and on the literal's `Display`, which renders it as source.
#[verifier::external_body]
fn string_literal(s: &str) -> (r: String)
    ensures
        r@ == string_literal_text(s@),
{
    proc_macro2::Literal::string(s).to_string()
}

/// One line of documentation as an attribute.
pub open spec fn doc_attr(comment: Seq<char>) -> Seq<char> {
    "#[doc = "@ + string_literal_text(comment) + "]\n"@
}

/// Lines of documentation as attributes, in order.
pub open spec fn doc_attrs(comments: Seq<String>) -> Seq<char>
    decreases comments.len(),
{
    if comments.len() == 0 {
        Seq::empty()
    } else {
        doc_attrs(comments.drop_last()) + doc_attr(comments.last()@)
    }
}

/// Generates a single line of a doc comment.
pub fn generate_doc_comment(comment: &str) -> (r: String)
    ensures
        r@ == doc_attr(comment@),
{
    let mut s = String::new();
    s.append("#[doc = ");
    let lit = string_literal(comment);
    s.append(lit.as_str());
    s.append("]\n");
    s
}

/// Generates a doc comment of many lines, one attribute per line.
pub fn generate_doc_comments(comments: &[String]) -> (r: String)
    ensures
        r@ == doc_attrs(comments@),
{
    let mut s = String::new();
    let mut i: usize = 0;
    while i < comments.len()
        invariant
            i <= comments@.len(),
            s@ == doc_attrs(comments@.take(i as int)),
        decreases comments@.len() - i,
    {
        let line = generate_doc_comment(comments[i].as_str());
        s.append(line.as_str());
        proof {
            assert(comments@.take(i + 1).drop_last() =~= comments@.take(i as int));
        }
        i = i + 1;
    }
    proof {
        assert(comments@.take(i as int) =~= comments@);
    }
    s
}

} // verus!
