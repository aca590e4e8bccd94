//! Doc comments of the TypeScript bindings.

use vstd::prelude::*;
use vstd::string::*;

use crate::text::{lines, text_lines};

verus! {

/// The JSDoc lines of a doc text: ` *` for an empty line and ` * <line>`
/// otherwise, each after the indent and followed by a newline.
pub open spec fn ts_doc_lines(ls: Seq<Seq<char>>, indent: Seq<char>) -> Seq<char>
    decreases ls.len(),
{
    if ls.len() == 0 {
        Seq::empty()
    } else {
        ts_doc_lines(ls.drop_last(), indent) + if ls.last().len() == 0 {
            indent + " *\n"@
        } else {
            indent + " * "@ + ls.last() + "\n"@
        }
    }
}

/// The JSDoc comment of an optional doc text, indented by `indent`, or
/// nothing when there is no doc.
pub open spec fn ts_doc_text(doc: Option<Seq<char>>, indent: Seq<char>) -> Seq<char> {
    match doc {
        None => Seq::empty(),
        Some(text) => indent + "/**\n"@ + ts_doc_lines(text_lines(text), indent) + indent + " */\n"@,
    }
}

/// The view of an optional doc text.
pub open spec fn doc_view(doc: Option<String>) -> Option<Seq<char>> {
    match doc {
        None => None,
        Some(s) => Some(s@),
    }
}

/// The JSDoc comment of a doc text; see [`ts_doc_text`].
pub fn ts_doc_block(doc: &Option<String>, indent: &str) -> (res: String)
    ensures
        res@ == ts_doc_text(doc_view(*doc), indent@),
{
    match doc {
        None => String::new(),
        Some(text) => {
            let ls = lines(text.as_str());
            let ghost views = ls@.map_values(|l: String| l@);
            let mut res = String::from_str(indent);
            res.append("/**\n");
            let mut i: usize = 0;
            while i < ls.len()
                invariant
                    i <= ls@.len(),
                    views == ls@.map_values(|l: String| l@),
                    res@ == indent@ + "/**\n"@ + ts_doc_lines(views.take(i as int), indent@),
                decreases ls.len() - i,
            {
                res.append(indent);
                if ls[i].as_str().unicode_len() == 0 {
                    res.append(" *\n");
                } else {
                    res.append(" * ");
                    res.append(ls[i].as_str());
                    res.append("\n");
                }
                assert(views.take(i + 1).drop_last() =~= views.take(i as int));
                i = i + 1;
            }
            assert(views.take(ls@.len() as int) =~= views);
            res.append(indent);
            res.append(" */\n");
            res
        },
    }
}

} // verus!
