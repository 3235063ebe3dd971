//! Template rendering: each recognized placeholder is substituted at most
//! once, at its first occurrence, in the fixed order `{level}`, `{msg}`,
//! `{modpath}`, `{file}`, `{line}`; everything else passes through verbatim.

use vstd::prelude::*;
use crate::decimal::{dec_str, u32_to_string};
use crate::record::{LogRecord, RecordView};
use crate::text::{replace_first, replace_first_spec};

verus! {

/// The text substituted for an optional text field: empty when absent.
pub open spec fn opt_text(o: Option<Seq<char>>) -> Seq<char> {
    match o {
        Some(s) => s,
        None => Seq::empty(),
    }
}

/// The text substituted for the optional line number: `0` when absent.
pub open spec fn line_text(o: Option<u32>) -> Seq<char> {
    match o {
        Some(n) => dec_str(n as int),
        None => dec_str(0),
    }
}

/// The rendered line for a template and a record: the five placeholders
/// substituted first-occurrence-only, in the fixed evaluation order.
/// No newline is appended here; line termination belongs to the sink.
pub open spec fn render_spec(t: Seq<char>, r: RecordView) -> Seq<char> {
    let s1 = replace_first_spec(t, "{level}"@, r.level.label_spec());
    let s2 = replace_first_spec(s1, "{msg}"@, r.msg);
    let s3 = replace_first_spec(s2, "{modpath}"@, opt_text(r.mod_path));
    let s4 = replace_first_spec(s3, "{file}"@, opt_text(r.file));
    replace_first_spec(s4, "{line}"@, line_text(r.line))
}

/// Render `record` through `template`.
pub fn render(template: &str, record: &LogRecord) -> (r: String)
    ensures
        r@ == render_spec(template@, record@),
{
    let s1: String = replace_first(template, "{level}", record.level.label());
    let s2: String = replace_first(s1.as_str(), "{msg}", record.msg.as_str());
    let mp: &str = match &record.mod_path {
        Some(s) => s.as_str(),
        None => "",
    };
    proof {
        reveal_strlit("");
        assert(""@ =~= Seq::<char>::empty());
    }
    let s3: String = replace_first(s2.as_str(), "{modpath}", mp);
    let fp: &str = match &record.file {
        Some(s) => s.as_str(),
        None => "",
    };
    let s4: String = replace_first(s3.as_str(), "{file}", fp);
    let ln: u32 = match record.line {
        Some(n) => n,
        None => 0,
    };
    let ls: String = u32_to_string(ln);
    replace_first(s4.as_str(), "{line}", ls.as_str())
}

/// Rendering is deterministic: for a fixed template and record, any two
/// rendered lines are the same.
pub proof fn lemma_render_deterministic(t: Seq<char>, r: RecordView, a: Seq<char>, b: Seq<char>)
    requires
        a == render_spec(t, r),
        b == render_spec(t, r),
    ensures
        a == b,
{
}

} // verus!
