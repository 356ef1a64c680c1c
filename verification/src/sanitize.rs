//! The name sanitizer: from a schema key or path to a fragment that can stand
//! in an identifier.

use vstd::prelude::*;
use crate::text::replace;
use crate::text::replaced;
use crate::text::same_text;

verus! {

/// The characters that the sanitizer takes out after the markers are in
/// place: brackets, the double quote and the hyphen.
pub open spec fn is_stripped(c: char) -> bool {
    c == '[' || c == ']' || c == '"' || c == '-'
}

/// The characters that the sanitizer writes out as a marker of their own.
pub open spec fn is_marked(c: char) -> bool {
    c == '<' || c == '>' || c == '|' || c == ',' || c == '(' || c == ')' || c == '$'
}

/// A character that may stand in an identifier: an ASCII letter, an ASCII
/// digit or the underscore.
pub open spec fn is_identifier_char(c: char) -> bool {
    ('a' <= c && c <= 'z') || ('A' <= c && c <= 'Z') || ('0' <= c && c <= '9') || c == '_'
}

/// First pass: `[]` and each marked character become a marker of their own,
/// so that texts which differ in them still differ afterwards.
pub open spec fn with_markers(s: Seq<char>) -> Seq<char> {
    let s1 = replaced(s, "[]"@, "_Array_"@);
    let s2 = replaced(s1, "<"@, "_Qlt_"@);
    let s3 = replaced(s2, ">"@, "_Qgt_"@);
    let s4 = replaced(s3, "|"@, "_Qor_"@);
    let s5 = replaced(s4, ","@, "_Qand_"@);
    let s6 = replaced(s5, "("@, "_Qop_"@);
    let s7 = replaced(s6, ")"@, "_Qcp_"@);
    replaced(s7, "$"@, "_Reserved_"@)
}

/// Second pass: every stripped character leaves the text, and an underscore
/// keeps the words on its two sides apart.
pub open spec fn without_punctuation(s: Seq<char>) -> Seq<char> {
    s.map_values(
        |c: char|
            if is_stripped(c) {
                '_'
            } else {
                c
            },
    )
}

/// Third pass: a text that is exactly a reserved word gets a safe form.
pub open spec fn unreserved(s: Seq<char>) -> Seq<char> {
    if s == "as"@ {
        "reserved_as"@
    } else if s == "type"@ {
        "reserved_type"@
    } else if s == "box"@ {
        "reserved_box"@
    } else if s == "URI"@ {
        "UniformResourceIdiot"@
    } else {
        s
    }
}

/// What the sanitizer makes of a text.
pub open spec fn sanitized(s: Seq<char>) -> Seq<char> {
    unreserved(without_punctuation(with_markers(s)))
}

/// `regex::Regex::new` on the character class of the stripped characters,
/// then `regex::Regex::replace_all` with an underscore. The class matches one
/// character at a time, exactly the four stripped ones, and the replacement
/// holds no `$`, so it is written out as it stands: each stripped character
/// becomes an underscore and every other character stays.
#[verifier::external_body]
fn replace_class(pattern: &str, text: &str, replacement: &str) -> (r: String)
    requires
        pattern@ == r#"[\[\]"\-]"#@,
        replacement@ == "_"@,
    ensures
        r@ == without_punctuation(text@),
{
    regex::Regex::new(pattern).unwrap().replace_all(text, replacement).into_owned()
}

/// Makes a schema key or path safe for use in an identifier.
///
/// The result depends on the text alone. It is not case-converted: callers
/// apply the convention they need. It is an identifier text exactly where the
/// text was not empty and held handled characters only.
pub fn sanitize(before: &str) -> (r: String)
    ensures
        r@ == sanitized(before@),
        is_identifier_text(r@) <==> is_handled_text(before@),
{
    proof {
        lemma_sanitizer_safety(before@);
    }
    let s1 = replace(before, "[]", "_Array_");
    let s2 = replace(s1.as_str(), "<", "_Qlt_");
    let s3 = replace(s2.as_str(), ">", "_Qgt_");
    let s4 = replace(s3.as_str(), "|", "_Qor_");
    let s5 = replace(s4.as_str(), ",", "_Qand_");
    let s6 = replace(s5.as_str(), "(", "_Qop_");
    let s7 = replace(s6.as_str(), ")", "_Qcp_");
    let s8 = replace(s7.as_str(), "$", "_Reserved_");
    let out = replace_class(r#"[\[\]"\-]"#, s8.as_str(), "_");
    if same_text(out.as_str(), "as") {
        String::from_str("reserved_as")
    } else if same_text(out.as_str(), "type") {
        String::from_str("reserved_type")
    } else if same_text(out.as_str(), "box") {
        String::from_str("reserved_box")
    } else if same_text(out.as_str(), "URI") {
        String::from_str("UniformResourceIdiot")
    } else {
        out
    }
}

/// The characters that the sanitizer knows how to deal with: those that may
/// stand in an identifier, and those that it marks or strips.
pub open spec fn is_handled(c: char) -> bool {
    is_identifier_char(c) || is_marked(c) || is_stripped(c)
}

/// Whether a text is not empty and holds identifier characters only.
pub open spec fn is_identifier_text(s: Seq<char>) -> bool {
    &&& s.len() > 0
    &&& forall|i: int| 0 <= i < s.len() ==> is_identifier_char(#[trigger] s[i])
}

/// Whether a text is not empty and holds handled characters only.
pub open spec fn is_handled_text(s: Seq<char>) -> bool {
    &&& s.len() > 0
    &&& forall|i: int| 0 <= i < s.len() ==> is_handled(#[trigger] s[i])
}

/// Whether every character of `s` meets `p`.
spec fn each_char(s: Seq<char>, p: spec_fn(char) -> bool) -> bool {
    forall|i: int| 0 <= i < s.len() ==> p(#[trigger] s[i])
}

/// A replacement by `to` keeps a property of the characters that `to` has,
/// where every character of the text has it too, but for those that a
/// pattern of one character takes out.
proof fn lemma_replaced_each_char(
    s: Seq<char>,
    from: Seq<char>,
    to: Seq<char>,
    p: spec_fn(char) -> bool,
)
    requires
        each_char(to, p),
        forall|i: int|
            0 <= i < s.len() ==> p(#[trigger] s[i]) || (from.len() == 1 && s[i] == from[0]),
    ensures
        each_char(replaced(s, from, to), p),
    decreases s.len(),
{
    if s.len() == 0 {
    } else if from.len() > 0 && from.is_prefix_of(s) {
        let rest = s.skip(from.len() as int);
        assert forall|i: int| 0 <= i < rest.len() implies p(#[trigger] rest[i]) || (from.len() == 1
            && rest[i] == from[0]) by {
            assert(rest[i] == s[i + from.len()]);
        }
        lemma_replaced_each_char(rest, from, to, p);
    } else {
        let rest = s.skip(1);
        assert forall|i: int| 0 <= i < rest.len() implies p(#[trigger] rest[i]) || (from.len() == 1
            && rest[i] == from[0]) by {
            assert(rest[i] == s[i + 1]);
        }
        lemma_replaced_each_char(rest, from, to, p);
        if from.len() == 1 && s[0] == from[0] {
            assert(from =~= s.subrange(0, 1));
        }
        assert(p(s[0]));
    }
}

/// A replacement by a non-empty text leaves a non-empty text non-empty, and
/// an empty text empty.
proof fn lemma_replaced_length(s: Seq<char>, from: Seq<char>, to: Seq<char>)
    ensures
        s.len() > 0 && to.len() > 0 ==> replaced(s, from, to).len() > 0,
        s.len() == 0 ==> replaced(s, from, to).len() == 0,
{
}

/// A replacement keeps a character that the pattern does not hold.
proof fn lemma_replaced_keeps_char(s: Seq<char>, from: Seq<char>, to: Seq<char>, c: char)
    requires
        s.contains(c),
        !from.contains(c),
    ensures
        replaced(s, from, to).contains(c),
    decreases s.len(),
{
    let i = choose|i: int| 0 <= i < s.len() && s[i] == c;
    if from.len() > 0 && from.is_prefix_of(s) {
        let rest = s.skip(from.len() as int);
        if i < from.len() {
            assert(s.subrange(0, from.len() as int)[i] == from[i]);
            assert(from[i] == c);
        }
        assert(rest[i - from.len()] == c);
        lemma_replaced_keeps_char(rest, from, to, c);
        let inner = replaced(rest, from, to);
        let k = choose|k: int| 0 <= k < inner.len() && inner[k] == c;
        assert((to + inner)[to.len() + k] == c);
    } else if i == 0 {
        assert((seq![s[0]] + replaced(s.skip(1), from, to))[0] == c);
    } else {
        let rest = s.skip(1);
        assert(rest[i - 1] == c);
        lemma_replaced_keeps_char(rest, from, to, c);
        let inner = replaced(rest, from, to);
        let k = choose|k: int| 0 <= k < inner.len() && inner[k] == c;
        assert((seq![s[0]] + inner)[1 + k] == c);
    }
}

/// A handled text comes out of the sanitizer as an identifier text.
proof fn lemma_handled_text_is_made_safe(s: Seq<char>)
    requires
        is_handled_text(s),
    ensures
        is_identifier_text(sanitized(s)),
{
    reveal_strlit("[]");
    reveal_strlit("_Array_");
    reveal_strlit("<");
    reveal_strlit("_Qlt_");
    reveal_strlit(">");
    reveal_strlit("_Qgt_");
    reveal_strlit("|");
    reveal_strlit("_Qor_");
    reveal_strlit(",");
    reveal_strlit("_Qand_");
    reveal_strlit("(");
    reveal_strlit("_Qop_");
    reveal_strlit(")");
    reveal_strlit("_Qcp_");
    reveal_strlit("$");
    reveal_strlit("_Reserved_");
    let s1 = replaced(s, "[]"@, "_Array_"@);
    let s2 = replaced(s1, "<"@, "_Qlt_"@);
    let s3 = replaced(s2, ">"@, "_Qgt_"@);
    let s4 = replaced(s3, "|"@, "_Qor_"@);
    let s5 = replaced(s4, ","@, "_Qand_"@);
    let s6 = replaced(s5, "("@, "_Qop_"@);
    let s7 = replaced(s6, ")"@, "_Qcp_"@);
    let s8 = replaced(s7, "$"@, "_Reserved_"@);
    let handled = |c: char| is_handled(c);
    let no_lt = |c: char| is_handled(c) && c != '<';
    let no_gt = |c: char| no_lt(c) && c != '>';
    let no_or = |c: char| no_gt(c) && c != '|';
    let no_and = |c: char| no_or(c) && c != ',';
    let no_op = |c: char| no_and(c) && c != '(';
    let no_cp = |c: char| no_op(c) && c != ')';
    let no_dollar = |c: char| no_cp(c) && c != '$';
    lemma_replaced_each_char(s, "[]"@, "_Array_"@, handled);
    lemma_replaced_length(s, "[]"@, "_Array_"@);
    lemma_replaced_each_char(s1, "<"@, "_Qlt_"@, no_lt);
    lemma_replaced_length(s1, "<"@, "_Qlt_"@);
    lemma_replaced_each_char(s2, ">"@, "_Qgt_"@, no_gt);
    lemma_replaced_length(s2, ">"@, "_Qgt_"@);
    lemma_replaced_each_char(s3, "|"@, "_Qor_"@, no_or);
    lemma_replaced_length(s3, "|"@, "_Qor_"@);
    lemma_replaced_each_char(s4, ","@, "_Qand_"@, no_and);
    lemma_replaced_length(s4, ","@, "_Qand_"@);
    lemma_replaced_each_char(s5, "("@, "_Qop_"@, no_op);
    lemma_replaced_length(s5, "("@, "_Qop_"@);
    lemma_replaced_each_char(s6, ")"@, "_Qcp_"@, no_cp);
    lemma_replaced_length(s6, ")"@, "_Qcp_"@);
    lemma_replaced_each_char(s7, "$"@, "_Reserved_"@, no_dollar);
    lemma_replaced_length(s7, "$"@, "_Reserved_"@);
    assert(s8 == with_markers(s));
    let clean = without_punctuation(s8);
    assert forall|i: int| 0 <= i < clean.len() implies is_identifier_char(#[trigger] clean[i]) by {
        assert(no_dollar(s8[i]));
    }
    reveal_strlit("reserved_as");
    reveal_strlit("reserved_type");
    reveal_strlit("reserved_box");
    reveal_strlit("UniformResourceIdiot");
}

/// The empty text comes out of the sanitizer empty.
proof fn lemma_empty_text_stays_empty(s: Seq<char>)
    requires
        s.len() == 0,
    ensures
        sanitized(s).len() == 0,
{
    let s1 = replaced(s, "[]"@, "_Array_"@);
    let s2 = replaced(s1, "<"@, "_Qlt_"@);
    let s3 = replaced(s2, ">"@, "_Qgt_"@);
    let s4 = replaced(s3, "|"@, "_Qor_"@);
    let s5 = replaced(s4, ","@, "_Qand_"@);
    let s6 = replaced(s5, "("@, "_Qop_"@);
    let s7 = replaced(s6, ")"@, "_Qcp_"@);
    let s8 = replaced(s7, "$"@, "_Reserved_"@);
    lemma_replaced_length(s, "[]"@, "_Array_"@);
    lemma_replaced_length(s1, "<"@, "_Qlt_"@);
    lemma_replaced_length(s2, ">"@, "_Qgt_"@);
    lemma_replaced_length(s3, "|"@, "_Qor_"@);
    lemma_replaced_length(s4, ","@, "_Qand_"@);
    lemma_replaced_length(s5, "("@, "_Qop_"@);
    lemma_replaced_length(s6, ")"@, "_Qcp_"@);
    lemma_replaced_length(s7, "$"@, "_Reserved_"@);
    reveal_strlit("as");
    reveal_strlit("type");
    reveal_strlit("box");
    reveal_strlit("URI");
    assert(s8 == with_markers(s));
    assert(without_punctuation(s8).len() == 0);
}

/// A character that is not handled comes out of the sanitizer as it went in.
proof fn lemma_unhandled_char_passes(s: Seq<char>, c: char)
    requires
        s.contains(c),
        !is_handled(c),
    ensures
        sanitized(s).contains(c),
{
    reveal_strlit("[]");
    reveal_strlit("<");
    reveal_strlit(">");
    reveal_strlit("|");
    reveal_strlit(",");
    reveal_strlit("(");
    reveal_strlit(")");
    reveal_strlit("$");
    let s1 = replaced(s, "[]"@, "_Array_"@);
    let s2 = replaced(s1, "<"@, "_Qlt_"@);
    let s3 = replaced(s2, ">"@, "_Qgt_"@);
    let s4 = replaced(s3, "|"@, "_Qor_"@);
    let s5 = replaced(s4, ","@, "_Qand_"@);
    let s6 = replaced(s5, "("@, "_Qop_"@);
    let s7 = replaced(s6, ")"@, "_Qcp_"@);
    let s8 = replaced(s7, "$"@, "_Reserved_"@);
    lemma_replaced_keeps_char(s, "[]"@, "_Array_"@, c);
    lemma_replaced_keeps_char(s1, "<"@, "_Qlt_"@, c);
    lemma_replaced_keeps_char(s2, ">"@, "_Qgt_"@, c);
    lemma_replaced_keeps_char(s3, "|"@, "_Qor_"@, c);
    lemma_replaced_keeps_char(s4, ","@, "_Qand_"@, c);
    lemma_replaced_keeps_char(s5, "("@, "_Qop_"@, c);
    lemma_replaced_keeps_char(s6, ")"@, "_Qcp_"@, c);
    lemma_replaced_keeps_char(s7, "$"@, "_Reserved_"@, c);
    let clean = without_punctuation(s8);
    let k = choose|k: int| 0 <= k < s8.len() && s8[k] == c;
    assert(clean.len() == s8.len());
    assert(clean[k] == c);
    reveal_strlit("as");
    reveal_strlit("type");
    reveal_strlit("box");
    reveal_strlit("URI");
    assert(s8 == with_markers(s));
    if clean == "as"@ {
        assert(k == 0 || k == 1);
        assert(is_identifier_char(clean[k]));
    } else if clean == "type"@ {
        assert(k == 0 || k == 1 || k == 2 || k == 3);
        assert(is_identifier_char(clean[k]));
    } else if clean == "box"@ {
        assert(k == 0 || k == 1 || k == 2);
        assert(is_identifier_char(clean[k]));
    } else if clean == "URI"@ {
        assert(k == 0 || k == 1 || k == 2);
        assert(is_identifier_char(clean[k]));
    }
    assert(sanitized(s) == clean);
}

/// Sanitizer safety: the sanitizer yields an identifier text exactly for the
/// handled texts.
///
/// The empty text comes out empty, and a character that is neither an
/// identifier character nor marked nor stripped, such as a blank, is passed
/// through as it is.
pub proof fn lemma_sanitizer_safety(s: Seq<char>)
    ensures
        is_identifier_text(sanitized(s)) <==> is_handled_text(s),
{
    if is_handled_text(s) {
        lemma_handled_text_is_made_safe(s);
    } else if s.len() == 0 {
        lemma_empty_text_stays_empty(s);
    } else {
        let i = choose|i: int| 0 <= i < s.len() && !is_handled(#[trigger] s[i]);
        lemma_unhandled_char_passes(s, s[i]);
        let out = sanitized(s);
        let k = choose|k: int| 0 <= k < out.len() && out[k] == s[i];
        assert(!is_identifier_char(out[k]));
    }
}

} // verus!
