//! Rendering an export as JSON text. The document is framed by verified
//! code — every brace, key and separator is pinned by the spec below — and
//! only the escaping of each string value is delegated to the JSON codec.

use vstd::prelude::*;

use crate::dialect::ExportView;
use crate::dialect::KV;
use crate::dialect::kvs_view;
use crate::strutil::dec_str;
use crate::strutil::i64_dec_string;

verus! {

/// The JSON string literal (quoted and escaped) for a text, as the JSON
/// codec renders it.
pub uninterp spec fn json_quoted(s: Seq<char>) -> Seq<char>;

/// Relies on `serde_json::to_string` on a string slice: the JSON string
/// literal for `s`, quoted and escaped, a function of the characters alone.
/// Serializing a string slice cannot fail.
#[verifier::external_body]
pub fn json_quote(s: &str) -> (r: String)
    ensures
        r@ == json_quoted(s@),
{
    match serde_json::to_string(s) {
        Ok(q) => q,
        Err(_) => String::new(),
    }
}

/// One exported field as a line of the JSON object: two-space indent, the
/// quoted key, the escaped value, a trailing comma.
pub open spec fn pair_line(p: (Seq<char>, Seq<char>)) -> Seq<char> {
    "  \""@ + p.0 + "\": "@ + json_quoted(p.1) + ",\n"@
}

/// The field lines of an export, in order.
pub open spec fn render_pairs(pairs: Seq<(Seq<char>, Seq<char>)>) -> Seq<char>
    decreases pairs.len(),
{
    if pairs.len() == 0 {
        Seq::empty()
    } else {
        pair_line(pairs[0]) + render_pairs(pairs.drop_first())
    }
}

/// Extending the rendered pairs by one more pair appends its line.
pub proof fn lemma_render_pairs_snoc(s: Seq<(Seq<char>, Seq<char>)>, i: int)
    requires
        0 <= i < s.len(),
    ensures
        render_pairs(s.take(i + 1)) == render_pairs(s.take(i)) + pair_line(s[i]),
    decreases i,
{
    if i == 0 {
        assert(s.take(1) =~= seq![s[0]]);
        assert(s.take(0) =~= Seq::<(Seq<char>, Seq<char>)>::empty());
        assert(s.take(1).drop_first() =~= Seq::<(Seq<char>, Seq<char>)>::empty());
        assert(render_pairs(s.take(1)) =~= render_pairs(s.take(0)) + pair_line(s[0]));
    } else {
        let t = s.drop_first();
        lemma_render_pairs_snoc(t, i - 1);
        assert(s.take(i + 1).drop_first() =~= t.take(i));
        assert(s.take(i).drop_first() =~= t.take(i - 1));
        assert(s.take(i + 1)[0] == s[0]);
        assert(s.take(i)[0] == s[0]);
        assert(render_pairs(s.take(i + 1)) =~= render_pairs(s.take(i)) + pair_line(s[i]));
    }
}

/// The `metadata` block of every export: the constant schema version, the
/// two stamps, the reserved null `source`, and the fixed tool descriptor.
pub open spec fn metadata_text(created: i64, modified: i64) -> Seq<char> {
    "  \"metadata\": {\n    \"version\": 1,\n    \"created\": "@ + dec_str(created as int)
        + ",\n    \"modified\": "@ + dec_str(modified as int)
        + ",\n    \"source\": null,\n    \"tool\": {\n      \"name\": \"aichar Python library\",\n      \"version\": \"1.0.5\",\n      \"url\": \"https://github.com/Hukasx0/aichar\"\n    }\n  }\n"@
}

/// The complete JSON document of an export.
pub open spec fn export_json_text(e: ExportView) -> Seq<char> {
    "{\n"@ + render_pairs(e.pairs) + metadata_text(e.created, e.modified) + "}"@
}

/// Renders an export — its field pairs and metadata stamps — as JSON text.
pub fn render_export_json(pairs: &Vec<KV>, created: i64, modified: i64) -> (out: String)
    ensures
        out@ == export_json_text(
            ExportView { pairs: kvs_view(pairs@), created: created, modified: modified },
        ),
{
    let ghost gpairs = kvs_view(pairs@);
    let mut s = "{\n".to_owned();
    let n = pairs.len();
    let mut i: usize = 0;
    proof {
        assert(gpairs.take(0) =~= Seq::<(Seq<char>, Seq<char>)>::empty());
    }
    while i < n
        invariant
            n == pairs@.len(),
            0 <= i <= n,
            gpairs == kvs_view(pairs@),
            s@ == "{\n"@ + render_pairs(gpairs.take(i as int)),
        decreases n - i,
    {
        let p = &pairs[i];
        s.append("  \"");
        s.append(p.key.as_str());
        s.append("\": ");
        let q = json_quote(p.value.as_str());
        s.append(q.as_str());
        s.append(",\n");
        proof {
            lemma_render_pairs_snoc(gpairs, i as int);
            assert(gpairs[i as int] == pairs@[i as int]@);
            assert(s@ =~= "{\n"@ + render_pairs(gpairs.take(i as int + 1)));
        }
        i = i + 1;
    }
    proof {
        assert(gpairs.take(n as int) =~= gpairs);
    }
    s.append("  \"metadata\": {\n    \"version\": 1,\n    \"created\": ");
    let created_text = i64_dec_string(created);
    s.append(created_text.as_str());
    s.append(",\n    \"modified\": ");
    let modified_text = i64_dec_string(modified);
    s.append(modified_text.as_str());
    s.append(
        ",\n    \"source\": null,\n    \"tool\": {\n      \"name\": \"aichar Python library\",\n      \"version\": \"1.0.5\",\n      \"url\": \"https://github.com/Hukasx0/aichar\"\n    }\n  }\n",
    );
    s.append("}");
    proof {
        assert(s@ =~= export_json_text(
            ExportView { pairs: kvs_view(pairs@), created: created, modified: modified },
        ));
    }
    s
}

} // verus!
