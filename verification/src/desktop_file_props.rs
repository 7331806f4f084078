//! Proved laws of the descriptor model, chiefly: parsing a text and
//! serializing the result preserves the four mandatory field values.

use vstd::prelude::*;

use crate::desktop_file_builder::{
    exec_line, opt_line, ownership_marker, parse_spec, sandbox_suffix, serialize_spec,
    terminal_line, DesktopFileView,
};
use crate::text::{
    contains_seq, eol_from, first_keyline_from, lemma_eol_from_props, lemma_first_keyline_from_props,
    lemma_parsed_field_append, matches_at, parsed_field,
};

verus! {

/// No newline occurs in `s`.
pub open spec fn no_newline(s: Seq<char>) -> bool {
    forall|i: int| 0 <= i < s.len() ==> s[i] != '\n'
}

/// No newline occurs in the value, if present.
pub open spec fn no_newline_opt(o: Option<Seq<char>>) -> bool {
    match o {
        Some(s) => no_newline(s),
        None => true,
    }
}

/// `l` is one newline-terminated line.
pub open spec fn wf_line(l: Seq<char>) -> bool {
    l.len() > 0 && l[l.len() - 1] == '\n' && (forall|m: int| 0 <= m < l.len() - 1 ==> l[m] != '\n')
}

/// `k` is a key pattern: a nonempty `=`-free name followed by `=`, with no
/// newline.
pub open spec fn key_wf(k: Seq<char>) -> bool {
    k.len() > 0 && k[k.len() - 1] == '=' && (forall|m: int| 0 <= m < k.len() - 1 ==> k[m] != '=')
        && no_newline(k)
}

/// A parsed field value never contains a newline: it is cut at the end of
/// its line.
pub proof fn lemma_parsed_value_no_newline(s: Seq<char>, kp: Seq<char>)
    ensures
        no_newline_opt(parsed_field(s, kp)),
{
    lemma_first_keyline_from_props(s, kp, 0);
    match first_keyline_from(s, kp, 0) {
        Some(f) => {
            let p = f + kp.len();
            lemma_eol_from_props(s, p);
            let v = s.subrange(p, eol_from(s, p));
            assert(forall|i: int| 0 <= i < v.len() ==> v[i] == s[p + i]);
        },
        None => {},
    }
}

/// A key-value line does not begin with a different key pattern: the `=`
/// characters cannot line up.
pub proof fn lemma_key_line_mismatch(k1: Seq<char>, k2: Seq<char>, x: Seq<char>)
    requires
        key_wf(k1),
        key_wf(k2),
        k1 != k2,
    ensures
        !matches_at(k2 + x + seq!['\n'], k1, 0),
{
    let l = k2 + x + seq!['\n'];
    assert(forall|m: int| 0 <= m < k2.len() ==> l[m] == k2[m]);
    if matches_at(l, k1, 0) {
        if k1.len() < k2.len() {
            assert(l[k1.len() - 1] == k1[k1.len() - 1]);
            assert(k2[k1.len() - 1] == '=');
            assert(false);
        } else if k1.len() == k2.len() {
            assert(forall|m: int| 0 <= m < k2.len() ==> k2[m] == l[0 + m] == #[trigger] k1[m]);
            assert(k1 =~= k2);
            assert(false);
        } else {
            assert(l[k2.len() - 1] == k1[k2.len() - 1]);
            assert(k2[k2.len() - 1] == '=');
            assert(k1[k2.len() - 1] == '=');
            assert(false);
        }
    }
}

/// A line whose first character differs from a pattern's does not begin with
/// it.
pub proof fn lemma_line_no_match(l: Seq<char>, k: Seq<char>)
    requires
        l.len() > 0,
        k.len() > 0,
        l[0] != k[0],
    ensures
        !matches_at(l, k, 0),
{
    if matches_at(l, k, 0) {
        assert(l[0int + 0int] == k[0]);
        assert(false);
    }
}

/// A key-value line is a well-formed line and begins with its key.
pub proof fn lemma_key_line_form(kp: Seq<char>, x: Seq<char>)
    requires
        key_wf(kp),
        no_newline(x),
    ensures
        wf_line(kp + x + seq!['\n']),
        matches_at(kp + x + seq!['\n'], kp, 0),
        (kp + x + seq!['\n']).subrange(kp.len() as int, (kp + x + seq!['\n']).len() - 1) == x,
{
    let l = kp + x + seq!['\n'];
    assert(l[l.len() - 1] == '\n');
    assert(forall|m: int| 0 <= m < kp.len() ==> l[m] == kp[m]);
    assert(forall|m: int| kp.len() <= m < l.len() - 1 ==> l[m] == x[m - kp.len()]);
    assert(l.subrange(kp.len() as int, l.len() - 1) =~= x);
}

/// Appending the key-value line `kp` `x` to a newline-terminated text: the
/// field of `kp` is discovered if still absent; every other key pattern, and
/// an already-found field, is untouched.
pub proof fn lemma_append_key_line(p: Seq<char>, kp: Seq<char>, x: Seq<char>, tgt: Seq<char>)
    requires
        p.len() == 0 || p[p.len() - 1] == '\n',
        key_wf(kp),
        key_wf(tgt),
        no_newline(x),
    ensures
        tgt == kp && parsed_field(p, tgt) is None ==> parsed_field(p + (kp + x + seq!['\n']), tgt)
            == Some(x),
        tgt != kp || parsed_field(p, tgt) is Some ==> parsed_field(p + (kp + x + seq!['\n']), tgt)
            == parsed_field(p, tgt),
{
    let l = kp + x + seq!['\n'];
    lemma_key_line_form(kp, x);
    lemma_parsed_field_append(p, l, tgt);
    if tgt == kp {
        assert(l.subrange(tgt.len() as int, l.len() - 1) == x);
    } else {
        lemma_key_line_mismatch(tgt, kp, x);
    }
}

/// The facts the round-trip proof needs of the literal key patterns and
/// fixed lines.
pub proof fn lemma_key_facts()
    ensures
        key_wf("Type="@),
        key_wf("Version="@),
        key_wf("Name="@),
        key_wf("Comment="@),
        key_wf("Path="@),
        key_wf("Exec="@),
        key_wf("Icon="@),
        key_wf("Terminal="@),
        key_wf("Categories="@),
        key_wf("X-AppHub="@),
        "Type="@.len() == 5,
        "Version="@.len() == 8,
        "Name="@.len() == 5,
        "Comment="@.len() == 8,
        "Path="@.len() == 5,
        "Exec="@.len() == 5,
        "Icon="@.len() == 5,
        "Terminal="@.len() == 9,
        "Categories="@.len() == 11,
        "X-AppHub="@.len() == 9,
        "Type="@[0] == 'T',
        "Version="@[0] == 'V',
        "Name="@[0] == 'N',
        "Comment="@[0] == 'C',
        "Path="@[0] == 'P',
        "Exec="@[0] == 'E',
        "Icon="@[0] == 'I',
        "Terminal="@[0] == 'T',
        "Categories="@[0] == 'C',
        "X-AppHub="@[0] == 'X',
        "Terminal="@[1] == 'e',
        "Type="@[1] == 'y',
        "Categories="@[1] == 'a',
        "Comment="@[1] == 'o',
        wf_line("[Desktop Entry]\n"@),
        "[Desktop Entry]\n"@.len() == 16,
        "[Desktop Entry]\n"@[0] == '[',
        "Terminal=true\n"@ == "Terminal="@ + "true"@ + seq!['\n'],
        "Terminal=false\n"@ == "Terminal="@ + "false"@ + seq!['\n'],
        "X-AppHub=true\n"@ == "X-AppHub="@ + "true"@ + seq!['\n'],
        "X-AppHub=true\n"@ == "X-AppHub=true"@ + seq!['\n'],
        no_newline("true"@),
        no_newline("false"@),
        no_newline(" --no-sandbox"@),
        "true"@.len() == 4,
        "false"@.len() == 5,
{
    reveal_strlit("Type=");
    reveal_strlit("Version=");
    reveal_strlit("Name=");
    reveal_strlit("Comment=");
    reveal_strlit("Path=");
    reveal_strlit("Exec=");
    reveal_strlit("Icon=");
    reveal_strlit("Terminal=");
    reveal_strlit("Categories=");
    reveal_strlit("X-AppHub=");
    reveal_strlit("[Desktop Entry]\n");
    reveal_strlit("Terminal=true\n");
    reveal_strlit("Terminal=false\n");
    reveal_strlit("X-AppHub=true\n");
    reveal_strlit("X-AppHub=true");
    reveal_strlit("true");
    reveal_strlit("false");
    reveal_strlit(" --no-sandbox");
    assert("Terminal=true\n"@ =~= "Terminal="@ + "true"@ + seq!['\n']);
    assert("Terminal=false\n"@ =~= "Terminal="@ + "false"@ + seq!['\n']);
    assert("X-AppHub=true\n"@ =~= "X-AppHub="@ + "true"@ + seq!['\n']);
    assert("X-AppHub=true\n"@ =~= "X-AppHub=true"@ + seq!['\n']);
}

/// What parsing recovers from a serialized descriptor: the mandatory fields
/// come back exactly (`Exec` with the sandbox suffix when the flag was set),
/// and the ownership marker is present.
#[verifier::rlimit(100)]
#[verifier::spinoff_prover]
pub proof fn lemma_serialized_fields(v: DesktopFileView)
    requires
        v.type_ is Some,
        v.version is Some,
        v.name is Some,
        v.exec_cmd is Some,
        no_newline_opt(v.type_),
        no_newline_opt(v.version),
        no_newline_opt(v.name),
        no_newline_opt(v.comment),
        no_newline_opt(v.path),
        no_newline_opt(v.exec_cmd),
        no_newline_opt(v.icon),
        no_newline_opt(v.categories),
    ensures
        parse_spec(serialize_spec(v)).type_ == v.type_,
        parse_spec(serialize_spec(v)).version == v.version,
        parse_spec(serialize_spec(v)).name == v.name,
        (match v.exec_cmd {
            Some(e) => parse_spec(serialize_spec(v)).exec_cmd == (if v.no_sanbox == Some(true) {
                Some(e + sandbox_suffix())
            } else {
                Some(e)
            }),
            None => true,
        }),
        contains_seq(serialize_spec(v), ownership_marker()),
{
    lemma_key_facts();
    let kt = "Type="@;
    let kv = "Version="@;
    let kn = "Name="@;
    let ke = "Exec="@;
    let s0 = Seq::<char>::empty();
    assert(parsed_field(s0, kt) is None);
    assert(parsed_field(s0, kv) is None);
    assert(parsed_field(s0, kn) is None);
    assert(parsed_field(s0, ke) is None);
    // The header line carries no key.
    let hd = "[Desktop Entry]\n"@;
    let p0 = s0 + hd;
    lemma_line_no_match(hd, kt);
    lemma_line_no_match(hd, kv);
    lemma_line_no_match(hd, kn);
    lemma_line_no_match(hd, ke);
    lemma_parsed_field_append(s0, hd, kt);
    lemma_parsed_field_append(s0, hd, kv);
    lemma_parsed_field_append(s0, hd, kn);
    lemma_parsed_field_append(s0, hd, ke);
    assert(p0[p0.len() - 1] == '\n');
    // Type line.
    let tv = v.type_->0;
    let p1 = p0 + (kt + tv + seq!['\n']);
    lemma_append_key_line(p0, kt, tv, kt);
    lemma_append_key_line(p0, kt, tv, kv);
    lemma_append_key_line(p0, kt, tv, kn);
    lemma_append_key_line(p0, kt, tv, ke);
    assert(p1[p1.len() - 1] == '\n');
    assert(parsed_field(p1, kt) == Some(tv));
    // Version line.
    let vv = v.version->0;
    let p2 = p1 + (kv + vv + seq!['\n']);
    lemma_append_key_line(p1, kv, vv, kt);
    lemma_append_key_line(p1, kv, vv, kv);
    lemma_append_key_line(p1, kv, vv, kn);
    lemma_append_key_line(p1, kv, vv, ke);
    assert(p2[p2.len() - 1] == '\n');
    // Name line.
    let nv = v.name->0;
    let p3 = p2 + (kn + nv + seq!['\n']);
    lemma_append_key_line(p2, kn, nv, kt);
    lemma_append_key_line(p2, kn, nv, kv);
    lemma_append_key_line(p2, kn, nv, kn);
    lemma_append_key_line(p2, kn, nv, ke);
    assert(p3[p3.len() - 1] == '\n');
    // Comment line, if present.
    let p4 = p3 + opt_line("Comment="@, v.comment);
    match v.comment {
        Some(cv) => {
            lemma_append_key_line(p3, "Comment="@, cv, kt);
            lemma_append_key_line(p3, "Comment="@, cv, kv);
            lemma_append_key_line(p3, "Comment="@, cv, kn);
            lemma_append_key_line(p3, "Comment="@, cv, ke);
        },
        None => {
            assert(p4 =~= p3);
        },
    }
    assert(p4[p4.len() - 1] == '\n');
    // Path line, if present.
    let p5 = p4 + opt_line("Path="@, v.path);
    match v.path {
        Some(pv) => {
            lemma_append_key_line(p4, "Path="@, pv, kt);
            lemma_append_key_line(p4, "Path="@, pv, kv);
            lemma_append_key_line(p4, "Path="@, pv, kn);
            lemma_append_key_line(p4, "Path="@, pv, ke);
        },
        None => {
            assert(p5 =~= p4);
        },
    }
    assert(p5[p5.len() - 1] == '\n');
    // Exec line: the value, possibly with the sandbox suffix.
    let ev = v.exec_cmd->0;
    let ex = if v.no_sanbox == Some(true) {
        ev + sandbox_suffix()
    } else {
        ev
    };
    let p6 = p5 + exec_line(ev, v.no_sanbox);
    assert(exec_line(ev, v.no_sanbox) =~= ke + ex + seq!['\n']);
    lemma_append_key_line(p5, ke, ex, kt);
    lemma_append_key_line(p5, ke, ex, kv);
    lemma_append_key_line(p5, ke, ex, kn);
    lemma_append_key_line(p5, ke, ex, ke);
    assert(p6 == p5 + (ke + ex + seq!['\n']));
    assert(p6[p6.len() - 1] == '\n');
    assert(parsed_field(p6, ke) == Some(ex));
    // Icon line, if present.
    let p7 = p6 + opt_line("Icon="@, v.icon);
    match v.icon {
        Some(iv) => {
            lemma_append_key_line(p6, "Icon="@, iv, kt);
            lemma_append_key_line(p6, "Icon="@, iv, kv);
            lemma_append_key_line(p6, "Icon="@, iv, kn);
            lemma_append_key_line(p6, "Icon="@, iv, ke);
        },
        None => {
            assert(p7 =~= p6);
        },
    }
    assert(p7[p7.len() - 1] == '\n');
    // Terminal line, if present.
    let p8 = p7 + terminal_line(v.terminal);
    match v.terminal {
        Some(b) => {
            let bv = if b {
                "true"@
            } else {
                "false"@
            };
            assert(terminal_line(v.terminal) == "Terminal="@ + bv + seq!['\n']);
            lemma_append_key_line(p7, "Terminal="@, bv, kt);
            lemma_append_key_line(p7, "Terminal="@, bv, kv);
            lemma_append_key_line(p7, "Terminal="@, bv, kn);
            lemma_append_key_line(p7, "Terminal="@, bv, ke);
        },
        None => {
            assert(p8 =~= p7);
        },
    }
    assert(p8[p8.len() - 1] == '\n');
    // Categories line, if present.
    let p9 = p8 + opt_line("Categories="@, v.categories);
    match v.categories {
        Some(gv) => {
            lemma_append_key_line(p8, "Categories="@, gv, kt);
            lemma_append_key_line(p8, "Categories="@, gv, kv);
            lemma_append_key_line(p8, "Categories="@, gv, kn);
            lemma_append_key_line(p8, "Categories="@, gv, ke);
        },
        None => {
            assert(p9 =~= p8);
        },
    }
    assert(p9[p9.len() - 1] == '\n');
    // The ownership marker line.
    let ml = "X-AppHub=true\n"@;
    let pa = p9 + ml;
    assert(ml == "X-AppHub="@ + "true"@ + seq!['\n']);
    lemma_append_key_line(p9, "X-AppHub="@, "true"@, kt);
    lemma_append_key_line(p9, "X-AppHub="@, "true"@, kv);
    lemma_append_key_line(p9, "X-AppHub="@, "true"@, kn);
    lemma_append_key_line(p9, "X-AppHub="@, "true"@, ke);
    assert(pa == p9 + ("X-AppHub="@ + "true"@ + seq!['\n']));
    // The serialized text is exactly this fold of lines.
    assert(serialize_spec(v) =~= pa);
    assert(parsed_field(serialize_spec(v), kt) == Some(tv));
    assert(parsed_field(serialize_spec(v), kv) == Some(vv));
    assert(parsed_field(serialize_spec(v), kn) == Some(nv));
    assert(parsed_field(serialize_spec(v), ke) == Some(ex));
    // The marker occurs where its line begins.
    let mk = ownership_marker();
    assert(ml == mk + seq!['\n']);
    assert(matches_at(pa, mk, p9.len() as int)) by {
        assert(forall|j: int| 0 <= j < mk.len() ==> pa[p9.len() + j] == ml[j] == #[trigger] mk[j]);
    }
    assert(contains_seq(serialize_spec(v), mk));
}

/// The round-trip law: for any descriptor text in which `Type`, `Version`,
/// `Name` and `Exec` are all found, parsing and then serializing preserves
/// those four field values.
pub proof fn lemma_parse_then_serialize_preserves_fields(text: Seq<char>)
    requires
        parse_spec(text).type_ is Some,
        parse_spec(text).version is Some,
        parse_spec(text).name is Some,
        parse_spec(text).exec_cmd is Some,
    ensures
        parse_spec(serialize_spec(parse_spec(text))).type_ == parse_spec(text).type_,
        parse_spec(serialize_spec(parse_spec(text))).version == parse_spec(text).version,
        parse_spec(serialize_spec(parse_spec(text))).name == parse_spec(text).name,
        parse_spec(serialize_spec(parse_spec(text))).exec_cmd == parse_spec(text).exec_cmd,
{
    let v = parse_spec(text);
    lemma_parsed_value_no_newline(text, "Type="@);
    lemma_parsed_value_no_newline(text, "Version="@);
    lemma_parsed_value_no_newline(text, "Name="@);
    lemma_parsed_value_no_newline(text, "Comment="@);
    lemma_parsed_value_no_newline(text, "Path="@);
    lemma_parsed_value_no_newline(text, "Exec="@);
    lemma_parsed_value_no_newline(text, "Icon="@);
    lemma_parsed_value_no_newline(text, "Categories="@);
    lemma_serialized_fields(v);
}

} // verus!
