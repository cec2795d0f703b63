//! What the profile readers find in a promoter file the generator wrote: the virtual IP and
//! the mount point that went in come back out.

use vstd::prelude::*;
use crate::config_gen::{
    agent_entries, is_set, mount_entries, promoter_settings, promoter_text, service_entries,
    start_entries, start_line, start_lines, text_or_empty, uses_ocf_mount, vip_entries,
    PromoterPluginConfig,
};
use crate::reactor_config::{
    config_mount_point, config_vip, first_ending_with, mount_unit_in_line, mount_unit_in_lines,
    unit_mount_point, vip_in_line, vip_in_lines,
};
use crate::text::{
    all_digits, contains, decimal, digit_char, digits_value, ends_with, find, is_digit, is_ws, last_with_prefix, lemma_find_contains, lines, lines_fold, match_at, parse_u8, split_char, split_fold, starts_with, strip_cr, tokens, tokens_fold,
    unsigned_body,
};

verus! {

// ---------------------------------------------------------------------------
// Lines
// ---------------------------------------------------------------------------

/// `s` holds no character `c`.
pub open spec fn free_of(s: Seq<char>, c: char) -> bool {
    forall|i: int| 0 <= i < s.len() ==> s[i] != c
}

proof fn lemma_fold_without_newline(l: Seq<char>)
    requires
        free_of(l, '\n'),
    ensures
        lines_fold(l) == (Seq::<Seq<char>>::empty(), l),
    decreases l.len(),
{
    if l.len() > 0 {
        lemma_fold_without_newline(l.drop_last());
        assert(l.drop_last().push(l.last()) =~= l);
    } else {
        assert(l =~= Seq::<char>::empty());
    }
}

proof fn lemma_lines_prefix(p: Seq<char>, r: Seq<char>)
    requires
        p.len() == 0 || p.last() == '\n',
    ensures
        lines_fold(p + r) == (lines_fold(p).0 + lines_fold(r).0, lines_fold(r).1),
    decreases r.len(),
{
    if r.len() == 0 {
        assert(p + r =~= p);
        if p.len() > 0 {
            assert(lines_fold(p).1 == Seq::<char>::empty());
        } else {
            assert(lines_fold(p).1 == Seq::<char>::empty());
        }
        assert(lines_fold(p).0 + lines_fold(r).0 =~= lines_fold(p).0);
    } else {
        lemma_lines_prefix(p, r.drop_last());
        assert((p + r).drop_last() =~= p + r.drop_last());
        assert((p + r).last() == r.last());
        let st = lines_fold(r.drop_last());
        if r.last() == '\n' {
            assert(lines_fold(p).0 + st.0.push(strip_cr(st.1)) =~= (lines_fold(p).0 + st.0).push(
                strip_cr(st.1),
            ));
        }
    }
}

/// The text of lines `ls`, each ended by a newline.
pub open spec fn line_seq(ls: Seq<Seq<char>>) -> Seq<char>
    decreases ls.len(),
{
    if ls.len() == 0 {
        Seq::empty()
    } else {
        line_seq(ls.drop_last()) + ls.last() + "\n"@
    }
}

/// A line that reads back as itself: no newline in it, no carriage return at its end.
pub open spec fn plain_line(l: Seq<char>) -> bool {
    free_of(l, '\n') && (l.len() == 0 || l.last() != '\r')
}

proof fn lemma_line_seq_ends(ls: Seq<Seq<char>>)
    ensures
        line_seq(ls).len() == 0 || line_seq(ls).last() == '\n',
{
    reveal_strlit("\n");
}

proof fn lemma_lines_of_line_seq(ls: Seq<Seq<char>>, r: Seq<char>)
    requires
        forall|k: int| 0 <= k < ls.len() ==> plain_line(#[trigger] ls[k]),
    ensures
        lines_fold(line_seq(ls) + r) == (ls + lines_fold(r).0, lines_fold(r).1),
    decreases ls.len(),
{
    reveal_strlit("\n");
    if ls.len() == 0 {
        assert(line_seq(ls) + r =~= r);
        assert(ls + lines_fold(r).0 =~= lines_fold(r).0);
    } else {
        let init = ls.drop_last();
        let l = ls.last();
        assert(plain_line(ls[ls.len() - 1]));
        lemma_line_seq_ends(init);
        assert(line_seq(ls) + r =~= line_seq(init) + (l + "\n"@ + r));
        lemma_lines_prefix(line_seq(init), l + "\n"@ + r);
        lemma_lines_of_line_seq(init, Seq::empty());
        assert(line_seq(init) + Seq::<char>::empty() =~= line_seq(init));
        assert(lines_fold(Seq::<char>::empty()) == (Seq::<Seq<char>>::empty(), Seq::<char>::empty()));
        assert(init + Seq::<Seq<char>>::empty() =~= init);
        lemma_fold_without_newline(l);
        assert((l + "\n"@).drop_last() =~= l);
        assert(lines_fold(l + "\n"@) == (seq![l], Seq::<char>::empty()));
        assert(l + "\n"@ + r =~= (l + "\n"@) + r);
        lemma_lines_prefix(l + "\n"@, r);
        assert(init + (seq![l] + lines_fold(r).0) =~= ls + lines_fold(r).0);
    }
}

/// The lines of a text made of plain lines followed by more text.
pub proof fn lemma_lines_after(ls: Seq<Seq<char>>, r: Seq<char>)
    requires
        forall|k: int| 0 <= k < ls.len() ==> plain_line(#[trigger] ls[k]),
    ensures
        lines(line_seq(ls) + r) == ls + lines(r),
{
    lemma_lines_of_line_seq(ls, r);
    let st = lines_fold(r);
    if st.1.len() != 0 {
        assert((ls + st.0).push(st.1) =~= ls + st.0.push(st.1));
    }
}

/// A `start` entry as its line reads: indented, quoted, followed by a comma.
pub open spec fn quoted(e: Seq<char>) -> Seq<char> {
    "    \""@ + e + "\","@
}

proof fn lemma_start_lines(es: Seq<Seq<char>>)
    ensures
        start_lines(es) == line_seq(es.map_values(|e: Seq<char>| quoted(e))),
    decreases es.len(),
{
    reveal_strlit("    ");
    reveal_strlit("\"");
    reveal_strlit("    \"");
    reveal_strlit("\",");
    reveal_strlit("\n");
    if es.len() > 0 {
        lemma_start_lines(es.drop_last());
        assert(es.drop_last().map_values(|e: Seq<char>| quoted(e)) =~= es.map_values(
            |e: Seq<char>| quoted(e),
        ).drop_last());
        assert(start_line(es.last()) =~= quoted(es.last()) + "\n"@);
        assert(start_lines(es) =~= line_seq(es.map_values(|e: Seq<char>| quoted(e))));
    }
}

/// The lines before the `start` entries.
pub open spec fn header_lines(resource: Seq<char>) -> Seq<Seq<char>> {
    seq![
        "# drbd-reactor promoter configuration"@,
        "# Generated by drbd-ha"@,
        ""@,
        "[[promoter]]"@,
        "[promoter.resources."@ + resource + "]"@,
        "start = ["@,
    ]
}

proof fn lemma_header_text(resource: Seq<char>)
    ensures
        "# drbd-reactor promoter configuration\n# Generated by drbd-ha\n\n[[promoter]]\n"@
            + ("[promoter.resources."@ + resource + "]"@) + "\nstart = [\n"@ == line_seq(
            header_lines(resource),
        ),
{
    reveal_strlit("# drbd-reactor promoter configuration\n# Generated by drbd-ha\n\n[[promoter]]\n");
    reveal_strlit("# drbd-reactor promoter configuration");
    reveal_strlit("# Generated by drbd-ha");
    reveal_strlit("");
    reveal_strlit("[[promoter]]");
    reveal_strlit("[promoter.resources.");
    reveal_strlit("]");
    reveal_strlit("\nstart = [\n");
    reveal_strlit("start = [");
    reveal_strlit("\n");
    let h = header_lines(resource);
    reveal_with_fuel(line_seq, 7);
    assert(h.drop_last().drop_last().drop_last().drop_last().drop_last().drop_last() =~= Seq::<Seq<char>>::empty());
    assert(h.drop_last().drop_last().drop_last().drop_last().drop_last() =~= seq![h[0]]);
    assert(h.drop_last().drop_last().drop_last().drop_last() =~= seq![h[0], h[1]]);
    assert(h.drop_last().drop_last().drop_last() =~= seq![h[0], h[1], h[2]]);
    assert(h.drop_last().drop_last() =~= seq![h[0], h[1], h[2], h[3]]);
    assert(h.drop_last() =~= seq![h[0], h[1], h[2], h[3], h[4]]);
    assert("# drbd-reactor promoter configuration\n# Generated by drbd-ha\n\n[[promoter]]\n"@
        + ("[promoter.resources."@ + resource + "]"@) + "\nstart = [\n"@ =~= line_seq(h));
}

// ---------------------------------------------------------------------------
// Searching the lines
// ---------------------------------------------------------------------------

proof fn lemma_vip_in_lines_append(a: Seq<Seq<char>>, b: Seq<Seq<char>>)
    ensures
        vip_in_lines(a + b) == (if vip_in_lines(a) is Some {
            vip_in_lines(a)
        } else {
            vip_in_lines(b)
        }),
    decreases a.len(),
{
    if a.len() == 0 {
        assert(a + b =~= b);
    } else {
        lemma_vip_in_lines_append(a.drop_first(), b);
        assert((a + b).drop_first() =~= a.drop_first() + b);
        assert((a + b)[0] == a[0]);
    }
}

proof fn lemma_mount_in_lines_append(a: Seq<Seq<char>>, b: Seq<Seq<char>>)
    ensures
        mount_unit_in_lines(a + b) == (if mount_unit_in_lines(a) is Some {
            mount_unit_in_lines(a)
        } else {
            mount_unit_in_lines(b)
        }),
    decreases a.len(),
{
    if a.len() == 0 {
        assert(a + b =~= b);
    } else {
        lemma_mount_in_lines_append(a.drop_first(), b);
        assert((a + b).drop_first() =~= a.drop_first() + b);
        assert((a + b)[0] == a[0]);
    }
}

proof fn lemma_vip_in_lines_none(ls: Seq<Seq<char>>)
    requires
        forall|k: int| 0 <= k < ls.len() ==> vip_in_line(#[trigger] ls[k]) is None,
    ensures
        vip_in_lines(ls) is None,
    decreases ls.len(),
{
    if ls.len() > 0 {
        assert(vip_in_line(ls[0]) is None);
        assert forall|k: int| 0 <= k < ls.drop_first().len() implies vip_in_line(
            #[trigger] ls.drop_first()[k],
        ) is None by {
            assert(ls.drop_first()[k] == ls[k + 1]);
        }
        lemma_vip_in_lines_none(ls.drop_first());
    }
}

proof fn lemma_mount_in_lines_none(ls: Seq<Seq<char>>)
    requires
        forall|k: int| 0 <= k < ls.len() ==> mount_unit_in_line(#[trigger] ls[k]) is None,
    ensures
        mount_unit_in_lines(ls) is None,
    decreases ls.len(),
{
    if ls.len() > 0 {
        assert(mount_unit_in_line(ls[0]) is None);
        assert forall|k: int| 0 <= k < ls.drop_first().len() implies mount_unit_in_line(
            #[trigger] ls.drop_first()[k],
        ) is None by {
            assert(ls.drop_first()[k] == ls[k + 1]);
        }
        lemma_mount_in_lines_none(ls.drop_first());
    }
}

/// A text without some character of `m` does not contain `m`.
proof fn lemma_missing_char(l: Seq<char>, m: Seq<char>, j: int)
    requires
        0 <= j < m.len(),
        free_of(l, m[j]),
    ensures
        !contains(l, m),
{
    if contains(l, m) {
        let i = choose|i: int| match_at(l, m, i);
        assert(l.subrange(i, i + m.len())[j] == m[j]);
        assert(l[i + j] == m[j]);
    }
}

/// The marker of the virtual IP agent.
pub open spec fn vip_marker() -> Seq<char> {
    "ocf:heartbeat:IPaddr2"@
}

proof fn lemma_no_vip_without_colon(l: Seq<char>)
    requires
        free_of(l, ':'),
    ensures
        vip_in_line(l) is None,
{
    reveal_strlit("ocf:heartbeat:IPaddr2");
    lemma_missing_char(l, vip_marker(), 3);
    lemma_find_contains(l, vip_marker());
}

proof fn lemma_split_free(s: Seq<char>, sep: char)
    requires
        free_of(s, sep),
    ensures
        split_fold(s, sep) == (Seq::<Seq<char>>::empty(), s),
    decreases s.len(),
{
    if s.len() > 0 {
        lemma_split_free(s.drop_last(), sep);
        assert(s.drop_last().push(s.last()) =~= s);
    } else {
        assert(s =~= Seq::<char>::empty());
    }
}

proof fn lemma_split_after_sep(x: Seq<char>, sep: char, w: Seq<char>)
    requires
        free_of(w, sep),
    ensures
        split_fold(x + seq![sep] + w, sep) == (split_fold(x, sep).0.push(split_fold(x, sep).1), w),
    decreases w.len(),
{
    if w.len() == 0 {
        assert(x + seq![sep] + w =~= x + seq![sep]);
        assert((x + seq![sep]).drop_last() =~= x);
    } else {
        lemma_split_after_sep(x, sep, w.drop_last());
        assert((x + seq![sep] + w).drop_last() =~= x + seq![sep] + w.drop_last());
        assert(w.drop_last().push(w.last()) =~= w);
    }
}

/// The pieces of a line holding one quoted text.
proof fn lemma_split_quoted(a: Seq<char>, u: Seq<char>, b: Seq<char>)
    requires
        free_of(a, '"'),
        free_of(u, '"'),
        free_of(b, '"'),
    ensures
        split_char(a + seq!['"'] + u + seq!['"'] + b, '"') == seq![a, u, b],
{
    lemma_split_free(a, '"');
    lemma_split_after_sep(a, '"', u);
    lemma_split_after_sep(a + seq!['"'] + u, '"', b);
    assert(Seq::<Seq<char>>::empty().push(a).push(u) =~= seq![a, u]);
}

proof fn lemma_mount_line(u: Seq<char>)
    requires
        free_of(u, '"'),
        ends_with(u, ".mount"@),
    ensures
        mount_unit_in_line(quoted(u)) == Some(u),
{
    reveal_strlit("    \"");
    reveal_strlit("\",");
    reveal_strlit(".mount");
    let a = "    "@;
    reveal_strlit("    ");
    let b = ","@;
    reveal_strlit(",");
    assert(quoted(u) =~= a + seq!['"'] + u + seq!['"'] + b);
    lemma_split_quoted(a, u, b);
    assert(contains(u, ".mount"@)) by {
        assert(match_at(u, ".mount"@, u.len() - 6));
    }
    crate::text::lemma_contains_add(a + seq!['"'], u, ".mount"@);
    crate::text::lemma_contains_add(a + seq!['"'] + u, seq!['"'] + b, ".mount"@);
    assert(quoted(u) =~= (a + seq!['"'] + u) + (seq!['"'] + b));
    let parts = seq![a, u, b];
    assert(!ends_with(a, ".mount"@));
    assert(parts.drop_first()[0] == u);
    assert(contains(quoted(u), ".mount"@));
    reveal_with_fuel(first_ending_with, 3);
    assert(first_ending_with(parts, ".mount"@) == Some(u));
}

// ---------------------------------------------------------------------------
// The virtual IP line
// ---------------------------------------------------------------------------

/// `w` holds no whitespace.
pub open spec fn no_ws(w: Seq<char>) -> bool {
    forall|i: int| 0 <= i < w.len() ==> !is_ws(#[trigger] w[i])
}

proof fn lemma_tokens_word(x: Seq<char>, w: Seq<char>)
    requires
        no_ws(w),
    ensures
        tokens_fold(x + w) == (tokens_fold(x).0, tokens_fold(x).1 + w),
    decreases w.len(),
{
    if w.len() == 0 {
        assert(x + w =~= x);
        assert(tokens_fold(x).1 + w =~= tokens_fold(x).1);
    } else {
        lemma_tokens_word(x, w.drop_last());
        assert((x + w).drop_last() =~= x + w.drop_last());
        assert(!is_ws(w[w.len() - 1]));
        assert((tokens_fold(x).1 + w.drop_last()).push(w.last()) =~= tokens_fold(x).1 + w);
    }
}

proof fn lemma_tokens_space(x: Seq<char>)
    ensures
        tokens_fold(x + seq![' ']) == (if tokens_fold(x).1.len() == 0 {
            tokens_fold(x)
        } else {
            (tokens_fold(x).0.push(tokens_fold(x).1), Seq::<char>::empty())
        }),
{
    assert((x + seq![' ']).drop_last() =~= x);
    assert(is_ws(' '));
}

pub proof fn lemma_decimal_digits(n: nat)
    ensures
        decimal(n).len() > 0,
        all_digits(decimal(n)),
        digits_value(decimal(n)) == n,
        decimal(n)[0] != '+',
    decreases n,
{
    if n < 10 {
        let d = decimal(n);
        assert(d == seq![digit_char(n)]);
        assert(d.drop_last() =~= Seq::<char>::empty());
        assert((digit_char(n) as nat) == 48 + n);
        assert(digits_value(d.drop_last()) == 0);
        assert(d.last() == digit_char(n));
        assert(digits_value(d) == digits_value(d.drop_last()) * 10 + ((d.last() as nat) - 48) as nat);
    } else {
        lemma_decimal_digits(n / 10);
        let d = decimal(n);
        let p = decimal(n / 10);
        assert(d == p.push(digit_char(n % 10)));
        assert(d.drop_last() =~= p);
        assert((digit_char(n % 10) as nat) == 48 + n % 10);
        assert(d.last() == digit_char(n % 10));
        assert(digits_value(d) == digits_value(d.drop_last()) * 10 + ((d.last() as nat) - 48) as nat);
        assert(digits_value(d) == digits_value(p) * 10 + n % 10);
        assert(n == (n / 10) * 10 + n % 10);
        assert forall|i: int| 0 <= i < d.len() implies is_digit(#[trigger] d[i]) by {
            if i < p.len() {
                assert(d[i] == p[i]);
            }
        }
        assert(d[0] == p[0]);
    }
}

proof fn lemma_parse_decimal(n: u8)
    ensures
        parse_u8(decimal(n as nat)) == Some(n),
{
    lemma_decimal_digits(n as nat);
    assert(unsigned_body(decimal(n as nat)) == decimal(n as nat));
}

/// A character position before which `c` does not occur, and where it does, is what `find`
/// gives for `c`.
pub proof fn lemma_find_first_char(h: Seq<char>, c: char, k: int)
    requires
        0 <= k < h.len(),
        h[k] == c,
        forall|j: int| 0 <= j < k ==> h[j] != c,
    ensures
        find(h, seq![c]) == Some(k),
{
    lemma_find_contains(h, seq![c]);
    assert(match_at(h, seq![c], k)) by {
        assert(h.subrange(k, k + 1) =~= seq![c]);
    }
    let f = find(h, seq![c]);
    if let Some(i) = f {
        if i < k {
            assert(h.subrange(i, i + 1)[0] == c);
        } else if i > k {
        }
    }
}

/// The virtual IP entry of a promoter file is read back from its line.
pub proof fn lemma_vip_line(resource: Seq<char>, address: Seq<char>, netmask: u8)
    requires
        free_of(resource, '"'),
        no_ws(address),
        free_of(address, '"'),
    ensures
        vip_in_line(
            quoted(
                "ocf:heartbeat:IPaddr2 "@ + resource + "_vip ip="@ + address + " cidr_netmask="@
                    + decimal(netmask as nat),
            ),
        ) == Some((address, netmask)),
{
    reveal_strlit("ocf:heartbeat:IPaddr2 ");
    reveal_strlit("ocf:heartbeat:IPaddr2");
    reveal_strlit("_vip ip=");
    reveal_strlit(" cidr_netmask=");
    reveal_strlit("    \"");
    reveal_strlit("\",");
    reveal_strlit("\"");
    reveal_strlit("ip=");
    reveal_strlit("cidr_netmask=");
    reveal_strlit("_vip");
    let dec = decimal(netmask as nat);
    lemma_decimal_digits(netmask as nat);
    let m = "ocf:heartbeat:IPaddr2"@;
    let rv = resource + "_vip"@;
    let ipa = "ip="@ + address;
    let cm = "cidr_netmask="@ + dec;
    let e = "ocf:heartbeat:IPaddr2 "@ + resource + "_vip ip="@ + address + " cidr_netmask="@ + dec;
    assert(e =~= m + seq![' '] + rv + seq![' '] + ipa + seq![' '] + cm);
    let l = quoted(e);
    assert(l =~= "    \""@ + e + "\","@);
    // the marker is found right after the opening quote
    assert(match_at(l, m, 5)) by {
        assert(l.subrange(5, 5 + m.len() as int) =~= m);
    }
    lemma_find_contains(l, m);
    let k = find(l, m)->0;
    assert forall|j: int| 0 <= j < 5 implies !match_at(l, m, j) by {
        assert(l[j] == ' ' || l[j] == '"');
        if match_at(l, m, j) {
            assert(l.subrange(j, j + m.len())[0] == m[0]);
        }
    }
    assert(k == 5);
    let after = l.skip(5);
    assert(after =~= e + "\","@);
    // the definition runs up to the closing quote
    assert forall|j: int| 0 <= j < e.len() implies after[j] != '"' by {
        assert(after[j] == e[j]);
        if j < 22 {
        } else if j < 22 + resource.len() {
            assert(e[j] == resource[j - 22]);
        } else if j < 22 + resource.len() + 8 {
        } else if j < 22 + resource.len() + 8 + address.len() {
            assert(e[j] == address[j - 30 - resource.len()]);
        } else if j < 22 + resource.len() + 8 + address.len() + 14 {
        } else {
            assert(e[j] == dec[j - 44 - resource.len() - address.len()]);
            assert(is_digit(dec[j - 44 - resource.len() - address.len()]));
        }
    }
    lemma_find_first_char(after, '"', e.len() as int);
    assert(seq!['"'] =~= "\""@);
    assert(after.take(e.len() as int) =~= e);
    // the last two words of the definition
    assert(no_ws(ipa));
    assert(no_ws(cm)) by {
        assert forall|i: int| 0 <= i < cm.len() implies !is_ws(#[trigger] cm[i]) by {
            if i >= 13 {
                assert(is_digit(dec[i - 13]));
            }
        }
    }
    let x = m + seq![' '] + rv;
    assert(e =~= x + seq![' '] + ipa + seq![' '] + cm);
    lemma_tokens_tail(x, ipa, cm);
    let toks = tokens(e);
    let t = tokens_fold(x + seq![' ']).0;
    assert(toks == t.push(ipa).push(cm));
    // the netmask is the last cidr_netmask= word, the address the last ip= word
    assert(starts_with(cm, "cidr_netmask="@)) by {
        assert(cm.subrange(0, 13) =~= "cidr_netmask="@);
    }
    assert(cm.skip(13) =~= dec);
    assert(last_with_prefix(toks, "cidr_netmask="@) == Some(dec));
    lemma_parse_decimal(netmask);
    assert(!starts_with(cm, "ip="@)) by {
        assert(cm.subrange(0, 3)[0] == 'c');
    }
    assert(toks.drop_last() =~= t.push(ipa));
    assert(starts_with(ipa, "ip="@)) by {
        assert(ipa.subrange(0, 3) =~= "ip="@);
    }
    assert(ipa.skip(3) =~= address);
    assert(last_with_prefix(toks.drop_last(), "ip="@) == Some(address));
    assert(last_with_prefix(toks, "ip="@) == Some(address));
}

/// The tokens of a text ending in two words, each after a single space: whatever comes
/// before, the two words are the last two tokens.
proof fn lemma_tokens_tail(x: Seq<char>, a: Seq<char>, b: Seq<char>)
    requires
        no_ws(a) && no_ws(b),
        a.len() > 0 && b.len() > 0,
    ensures
        tokens(x + seq![' '] + a + seq![' '] + b) == tokens_fold(x + seq![' ']).0.push(a).push(b),
{
    let x1 = x + seq![' '];
    lemma_tokens_space(x);
    assert(tokens_fold(x1).1.len() == 0);
    lemma_tokens_word(x1, a);
    assert(tokens_fold(x1).1 + a =~= a);
    lemma_tokens_space(x1 + a);
    lemma_tokens_word(x1 + a + seq![' '], b);
    assert(Seq::<char>::empty() + b =~= b);
}

// ---------------------------------------------------------------------------
// Reading back what was written
// ---------------------------------------------------------------------------

proof fn lemma_start_lines_append(a: Seq<Seq<char>>, b: Seq<Seq<char>>)
    ensures
        start_lines(a + b) == start_lines(a) + start_lines(b),
    decreases b.len(),
{
    if b.len() == 0 {
        assert(a + b =~= a);
        assert(start_lines(a) + start_lines(b) =~= start_lines(a));
    } else {
        lemma_start_lines_append(a, b.drop_last());
        assert((a + b).drop_last() =~= a + b.drop_last());
        assert((a + b).last() == b.last());
        assert(start_lines(a) + start_lines(b.drop_last()) + start_line(b.last()) =~= start_lines(a)
            + start_lines(b));
    }
}

pub proof fn lemma_line_seq_append(a: Seq<Seq<char>>, b: Seq<Seq<char>>)
    ensures
        line_seq(a + b) == line_seq(a) + line_seq(b),
    decreases b.len(),
{
    if b.len() == 0 {
        assert(a + b =~= a);
        assert(line_seq(a) + line_seq(b) =~= line_seq(a));
    } else {
        lemma_line_seq_append(a, b.drop_last());
        assert((a + b).drop_last() =~= a + b.drop_last());
        assert((a + b).last() == b.last());
        assert(line_seq(a) + line_seq(b.drop_last()) + b.last() + "\n"@ =~= line_seq(a) + line_seq(b));
    }
}

/// The first lines of a promoter file: the header, the mount entry and the virtual IP entry;
/// the rest of the file follows them.
proof fn lemma_promoter_first_lines(c: PromoterPluginConfig)
    requires
        plain_line(c.resource@),
        forall|k: int|
            0 <= k < (mount_entries(c) + vip_entries(c)).len() ==> free_of(
                #[trigger] (mount_entries(c) + vip_entries(c))[k],
                '\n',
            ),
    ensures
        ({
            let mv = mount_entries(c) + vip_entries(c);
            lines(promoter_text(c)) == header_lines(c.resource@) + mv.map_values(|e: Seq<char>| quoted(e))
                + lines(start_lines(agent_entries(c) + service_entries(c)) + "]\n"@ + promoter_settings(c))
        }),
{
    reveal_strlit("\n");
    reveal_strlit("    \"");
    reveal_strlit("\",");
    let mv = mount_entries(c) + vip_entries(c);
    let rest_entries = agent_entries(c) + service_entries(c);
    let q = mv.map_values(|e: Seq<char>| quoted(e));
    let h = header_lines(c.resource@);
    let rest = start_lines(rest_entries) + "]\n"@ + promoter_settings(c);
    assert(start_entries(c) =~= mv + rest_entries);
    lemma_start_lines_append(mv, rest_entries);
    lemma_start_lines(mv);
    lemma_header_text(c.resource@);
    lemma_line_seq_append(h, q);
    assert(promoter_text(c) =~= line_seq(h + q) + rest);
    reveal_strlit("# drbd-reactor promoter configuration");
    reveal_strlit("# Generated by drbd-ha");
    reveal_strlit("");
    reveal_strlit("[[promoter]]");
    reveal_strlit("[promoter.resources.");
    reveal_strlit("]");
    reveal_strlit("start = [");
    assert forall|k: int| 0 <= k < (h + q).len() implies plain_line(#[trigger] (h + q)[k]) by {
        if k < h.len() {
            assert((h + q)[k] == h[k]);
            if k == 4 {
                assert(h[4] == "[promoter.resources."@ + c.resource@ + "]"@);
            }
        } else {
            let j = k - h.len();
            assert((h + q)[k] == q[j]);
            assert(free_of(mv[j], '\n'));
            assert(q[j] == quoted(mv[j]));
        }
    }
    lemma_lines_after(h + q, rest);
}

/// A resource name as the readers expect it: no whitespace, no quote, no colon.
pub open spec fn plain_resource(r: Seq<char>) -> bool {
    no_ws(r) && free_of(r, '"') && free_of(r, ':')
}

proof fn lemma_plain_resource_line(r: Seq<char>)
    requires
        plain_resource(r),
    ensures
        plain_line(r),
{
    assert forall|i: int| 0 <= i < r.len() implies r[i] != '\n' by {
        assert(!is_ws(r[i]));
    }
    if r.len() > 0 {
        assert(!is_ws(r[r.len() - 1]));
    }
}

proof fn lemma_header_no_vip(r: Seq<char>)
    requires
        !contains(r, vip_marker()),
    ensures
        vip_in_lines(header_lines(r)) is None,
{
    reveal_strlit("# drbd-reactor promoter configuration");
    reveal_strlit("# Generated by drbd-ha");
    reveal_strlit("");
    reveal_strlit("[[promoter]]");
    reveal_strlit("[promoter.resources.");
    reveal_strlit("]");
    reveal_strlit("start = [");
    reveal_strlit("ocf:heartbeat:IPaddr2");
    let h = header_lines(r);
    assert forall|k: int| 0 <= k < h.len() implies vip_in_line(#[trigger] h[k]) is None by {
        if k == 4 {
            let l = h[4];
            let m = vip_marker();
            assert(l == "[promoter.resources."@ + r + "]"@);
            if contains(l, m) {
                let i = choose|i: int| match_at(l, m, i);
                assert(l.subrange(i, i + m.len())[0] == m[0]);
                assert(l.subrange(i, i + m.len())[1] == m[1]);
                assert(l.subrange(i, i + m.len())[20] == m[20]);
                assert(l[i] == 'o' && l[i + 1] == 'c' && l[i + 20] == '2');
                assert(i >= 20);
                assert(i + 21 <= 20 + r.len());
                assert(match_at(r, m, i - 20)) by {
                    assert forall|j: int| 0 <= j < m.len() implies r.subrange(i - 20, i - 20 + m.len())[j] == m[j] by {
                        assert(l.subrange(i, i + m.len())[j] == m[j]);
                        assert(l[i + j] == r[i - 20 + j]);
                    }
                    assert(r.subrange(i - 20, i - 20 + m.len()) =~= m);
                }
            }
            lemma_find_contains(l, m);
        } else {
            lemma_no_vip_without_colon(h[k]);
        }
    }
    lemma_vip_in_lines_none(h);
}

proof fn lemma_no_mount_unquoted(l: Seq<char>)
    requires
        free_of(l, '"'),
        !ends_with(l, ".mount"@),
    ensures
        mount_unit_in_line(l) is None,
{
    lemma_split_free(l, '"');
    assert(split_char(l, '"') =~= seq![l]);
    reveal_with_fuel(first_ending_with, 2);
}

proof fn lemma_header_no_mount(r: Seq<char>)
    requires
        plain_resource(r),
    ensures
        mount_unit_in_lines(header_lines(r)) is None,
{
    reveal_strlit("# drbd-reactor promoter configuration");
    reveal_strlit("# Generated by drbd-ha");
    reveal_strlit("");
    reveal_strlit("[[promoter]]");
    reveal_strlit("[promoter.resources.");
    reveal_strlit("]");
    reveal_strlit("start = [");
    reveal_strlit(".mount");
    let h = header_lines(r);
    assert forall|k: int| 0 <= k < h.len() implies mount_unit_in_line(#[trigger] h[k]) is None by {
        if k == 4 {
            assert(h[4] == "[promoter.resources."@ + r + "]"@);
            assert forall|i: int| 0 <= i < h[4].len() implies h[4][i] != '"' by {
                if 20 <= i < 20 + r.len() {
                    assert(h[4][i] == r[i - 20]);
                }
            }
        }
        assert(h[k].len() == 0 || h[k].last() != 't');
        if ends_with(h[k], ".mount"@) {
            assert(h[k].subrange(h[k].len() - 6, h[k].len() as int)[5] == 't');
        }
        lemma_no_mount_unquoted(h[k]);
    }
    lemma_mount_in_lines_none(h);
}

/// The quoted `Filesystem` agent entry names no virtual IP: its only colons are those of the
/// agent name.
// ---------------------------------------------------------------------------
// Texts that hold no marker
// ---------------------------------------------------------------------------

/// Two texts without `m`, joined where a character foreign to `m` stands, hold no `m`.
proof fn lemma_concat_no_match(a: Seq<char>, b: Seq<char>, m: Seq<char>)
    requires
        !contains(a, m),
        !contains(b, m),
        (a.len() > 0 && free_of(m, a.last())) || (b.len() > 0 && free_of(m, b[0])),
    ensures
        !contains(a + b, m),
{
    let t = a + b;
    if contains(t, m) {
        let i = choose|i: int| match_at(t, m, i);
        if i + m.len() <= a.len() {
            assert(match_at(a, m, i)) by {
                assert(t.subrange(i, i + m.len()) =~= a.subrange(i, i + m.len()));
            }
        } else if i >= a.len() {
            assert(match_at(b, m, i - a.len())) by {
                assert(t.subrange(i, i + m.len()) =~= b.subrange(i - a.len(), i - a.len() + m.len()));
            }
        } else if a.len() > 0 && free_of(m, a.last()) && i <= a.len() - 1 {
            assert(t.subrange(i, i + m.len())[a.len() - 1 - i] == m[a.len() - 1 - i]);
            assert(t[a.len() - 1] == a.last());
        } else {
            assert(b.len() > 0 && free_of(m, b[0]));
            assert(t.subrange(i, i + m.len())[a.len() - i] == m[a.len() - i]);
            assert(t[a.len() as int] == b[0]);
        }
    }
}

/// A text shorter than `m` does not hold it.
proof fn lemma_short_no_match(a: Seq<char>, m: Seq<char>)
    requires
        a.len() < m.len(),
    ensures
        !contains(a, m),
{
}

/// A piece of a text without `m` holds no `m` either.
proof fn lemma_sub_no_match(s: Seq<char>, i: int, j: int, m: Seq<char>)
    requires
        !contains(s, m),
        0 <= i <= j <= s.len(),
    ensures
        !contains(s.subrange(i, j), m),
{
    let t = s.subrange(i, j);
    if contains(t, m) {
        let k = choose|k: int| match_at(t, m, k);
        assert(match_at(s, m, i + k)) by {
            assert(t.subrange(k, k + m.len()) =~= s.subrange(i + k, i + k + m.len()));
        }
    }
}

/// The line in progress while splitting `s` into lines is its tail.
proof fn lemma_fold_pending_tail(s: Seq<char>)
    ensures
        lines_fold(s).1.len() <= s.len(),
        lines_fold(s).1 == s.subrange(s.len() - lines_fold(s).1.len(), s.len() as int),
    decreases s.len(),
{
    if s.len() > 0 {
        lemma_fold_pending_tail(s.drop_last());
        let p = lines_fold(s.drop_last()).1;
        if s.last() != '\n' {
            assert(p.push(s.last()) =~= s.subrange(s.len() - p.len() - 1, s.len() as int));
        } else {
            assert(Seq::<char>::empty() =~= s.subrange(s.len() as int, s.len() as int));
        }
    } else {
        assert(s.subrange(0, 0) =~= Seq::<char>::empty());
    }
}

/// The lines of a text without `m` hold no `m`.
proof fn lemma_fold_no_match(s: Seq<char>, m: Seq<char>)
    requires
        !contains(s, m),
        m.len() > 0,
    ensures
        forall|k: int| 0 <= k < lines_fold(s).0.len() ==> !contains(#[trigger] lines_fold(s).0[k], m),
    decreases s.len(),
{
    if s.len() > 0 {
        let d = s.drop_last();
        lemma_sub_no_match(s, 0, s.len() - 1, m);
        assert(s.subrange(0, s.len() - 1) =~= d);
        lemma_fold_no_match(d, m);
        if s.last() == '\n' {
            let p = lines_fold(d).1;
            lemma_fold_pending_tail(d);
            let n = strip_cr(p);
            let a = d.len() - p.len();
            let b = if p.len() > 0 && p.last() == '\r' { d.len() - 1 } else { d.len() as int };
            assert(n =~= s.subrange(a, b));
            lemma_sub_no_match(s, a, b, m);
            let f = lines_fold(s).0;
            assert(f == lines_fold(d).0.push(n));
            assert forall|k: int| 0 <= k < f.len() implies !contains(#[trigger] f[k], m) by {
                if k < lines_fold(d).0.len() {
                    assert(f[k] == lines_fold(d).0[k]);
                }
            }
        }
    }
}

/// A line without the IP agent's name names no virtual IP.
proof fn lemma_no_vip_without_marker(l: Seq<char>)
    requires
        !contains(l, vip_marker()),
    ensures
        vip_in_line(l) is None,
{
    reveal_strlit("ocf:heartbeat:IPaddr2");
    lemma_find_contains(l, vip_marker());
}

/// The characters that never occur in the IP agent's name.
proof fn lemma_marker_lacks(c: char)
    requires
        c == ' ' || c == '"' || c == '_' || c == '-' || c == '/' || c == '=' || c == '\n' || c == ',',
    ensures
        free_of(vip_marker(), c),
{
    reveal_strlit("ocf:heartbeat:IPaddr2");
}

/// A literal without the letter `I` does not hold the IP agent's name.
proof fn lemma_literal_no_marker(l: Seq<char>)
    requires
        free_of(l, 'I'),
    ensures
        !contains(l, vip_marker()),
{
    reveal_strlit("ocf:heartbeat:IPaddr2");
    lemma_missing_char(l, vip_marker(), 14);
}

/// The start entry of the mount, quoted, with its line break, holds no IP agent's name when
/// what goes into it holds none.
proof fn lemma_mount_entry_no_marker(c: PromoterPluginConfig)
    requires
        !contains(c.resource@, vip_marker()),
        !uses_ocf_mount(c) ==> !contains(text_or_empty(c.mount_unit), vip_marker()),
        uses_ocf_mount(c) ==> !contains(text_or_empty(c.mount_point), vip_marker()) && !contains(
            text_or_empty(c.fs_type),
            vip_marker(),
        ),
    ensures
        mount_entries(c).len() <= 1,
        mount_entries(c).len() == 1 ==> !contains(quoted(mount_entries(c)[0]) + "\n"@, vip_marker()),
{
    let m = vip_marker();
    let r = c.resource@;
    reveal_strlit("    \"");
    reveal_strlit("\",");
    reveal_strlit("\n");
    let q0 = "    \""@;
    let q1 = "\","@;
    let nl = "\n"@;
    lemma_literal_no_marker(q0);
    lemma_literal_no_marker(q1);
    lemma_literal_no_marker(nl);
    lemma_marker_lacks('"');
    lemma_marker_lacks('\n');
    lemma_marker_lacks(',');
    lemma_concat_no_match(q1, nl, m);
    let tail = q1 + nl;
    if mount_entries(c).len() == 1 {
        let e = mount_entries(c)[0];
        if uses_ocf_mount(c) {
            let mp = text_or_empty(c.mount_point);
            let fs = text_or_empty(c.fs_type);
            let a = "ocf:heartbeat:Filesystem "@;
            let b = "_fs device=/dev/drbd/by-"@;
            let cc = "/0 directory="@;
            let d = " fstype="@;
            let f = " run_fsck=no force_unmount=true"@;
            reveal_strlit("ocf:heartbeat:Filesystem ");
            reveal_strlit("_fs device=/dev/drbd/by-");
            reveal_strlit("/0 directory=");
            reveal_strlit(" fstype=");
            reveal_strlit(" run_fsck=no force_unmount=true");
            lemma_literal_no_marker(a);
            lemma_literal_no_marker(b);
            lemma_literal_no_marker(cc);
            lemma_literal_no_marker(d);
            lemma_literal_no_marker(f);
            lemma_marker_lacks(' ');
            lemma_marker_lacks('_');
            lemma_marker_lacks('-');
            lemma_marker_lacks('/');
            lemma_marker_lacks('=');
            assert(e == a + r + b + r + cc + mp + d + fs + f);
            let t1 = f + tail;
            lemma_concat_no_match(f, tail, m);
            let t2 = fs + t1;
            lemma_concat_no_match(fs, t1, m);
            let t3 = d + t2;
            lemma_concat_no_match(d, t2, m);
            let t4 = mp + t3;
            lemma_concat_no_match(mp, t3, m);
            let t5 = cc + t4;
            lemma_concat_no_match(cc, t4, m);
            let t6 = r + t5;
            lemma_concat_no_match(r, t5, m);
            let t7 = b + t6;
            lemma_concat_no_match(b, t6, m);
            let t8 = r + t7;
            lemma_concat_no_match(r, t7, m);
            let t9 = a + t8;
            lemma_concat_no_match(a, t8, m);
            lemma_concat_no_match(q0, t9, m);
            assert(quoted(e) + nl =~= q0 + t9);
        } else {
            let u = text_or_empty(c.mount_unit);
            assert(e == u);
            if u.len() > 0 {
                lemma_concat_no_match(u, tail, m);
            } else {
                assert(u + tail =~= tail);
            }
            lemma_concat_no_match(q0, u + tail, m);
            assert(quoted(e) + nl =~= q0 + (u + tail));
        }
    }
}

/// The lines of a promoter file with a virtual IP: the header, the lines of the mount entry
/// (if any, however it breaks), the virtual IP's line, then the rest.
proof fn lemma_promoter_lines_with_vip(c: PromoterPluginConfig)
    requires
        c.vip is Some,
        free_of(c.resource@, '\n'),
        plain_line(quoted(vip_entries(c)[0])),
    ensures
        ({
            let mq = if mount_entries(c).len() == 1 {
                lines_fold(quoted(mount_entries(c)[0]) + "\n"@).0
            } else {
                Seq::<Seq<char>>::empty()
            };
            let rest = start_lines(agent_entries(c) + service_entries(c)) + "]\n"@ + promoter_settings(c);
            lines(promoter_text(c)) == header_lines(c.resource@) + mq + seq![quoted(vip_entries(c)[0])]
                + lines(rest)
        }),
{
    reveal_strlit("\n");
    reveal_strlit("    \"");
    reveal_strlit("\",");
    reveal_strlit("# drbd-reactor promoter configuration");
    reveal_strlit("# Generated by drbd-ha");
    reveal_strlit("");
    reveal_strlit("[[promoter]]");
    reveal_strlit("[promoter.resources.");
    reveal_strlit("]");
    reveal_strlit("start = [");
    let r = c.resource@;
    let me = mount_entries(c);
    let ve = vip_entries(c);
    let re = agent_entries(c) + service_entries(c);
    let h = header_lines(r);
    let rest = start_lines(re) + "]\n"@ + promoter_settings(c);
    let qe = quoted(ve[0]);
    assert(start_entries(c) =~= me + (ve + re));
    lemma_start_lines_append(me, ve + re);
    lemma_start_lines_append(ve, re);
    lemma_start_lines(me);
    lemma_start_lines(ve);
    lemma_header_text(r);
    assert(ve.map_values(|e: Seq<char>| quoted(e)) =~= seq![qe]);
    let mtext = start_lines(me);
    let t = line_seq(seq![qe]) + rest;
    assert(promoter_text(c) =~= line_seq(h) + mtext + t);
    assert forall|k: int| 0 <= k < h.len() implies plain_line(#[trigger] h[k]) by {
        if k == 4 {
            assert(h[4] == "[promoter.resources."@ + r + "]"@);
        }
    }
    assert forall|k: int| 0 <= k < seq![qe].len() implies plain_line(#[trigger] seq![qe][k]) by {}
    lemma_lines_of_line_seq(seq![qe], rest);
    let ft = lines_fold(t);
    assert(ft == (seq![qe] + lines_fold(rest).0, lines_fold(rest).1));
    if me.len() == 1 {
        let x = quoted(me[0]) + "\n"@;
        assert(me.map_values(|e: Seq<char>| quoted(e)) =~= seq![quoted(me[0])]);
        reveal_with_fuel(line_seq, 2);
        assert(mtext =~= x);
        lemma_lines_of_line_seq(h, x);
        assert(x.last() == '\n');
        lemma_fold_pending_tail(x);
        assert(lines_fold(x).1.len() == 0);
        lemma_line_seq_ends(h);
        lemma_lines_prefix(line_seq(h) + x, t);
        lemma_line_seq_ends(h);
        assert((line_seq(h) + x).last() == '\n');
        assert(line_seq(h) + mtext + t =~= (line_seq(h) + x) + t);
    } else {
        assert(me.len() == 0);
        assert(mtext =~= Seq::<char>::empty());
        lemma_lines_of_line_seq(h, t);
        assert(line_seq(h) + mtext + t =~= line_seq(h) + t);
    }
    let mq = if me.len() == 1 { lines_fold(quoted(me[0]) + "\n"@).0 } else { Seq::<Seq<char>>::empty() };
    let st = lines_fold(rest);
    if st.1.len() == 0 {
        assert(h + mq + (seq![qe] + st.0) =~= h + mq + seq![qe] + st.0);
    } else {
        assert((h + mq + (seq![qe] + st.0)).push(st.1) =~= h + mq + seq![qe] + st.0.push(st.1));
    }
}

/// A virtual IP written into a promoter file is the one the profile reader finds there: for
/// an address without whitespace or quotes, a resource name without quotes or line breaks,
/// and no other text that goes into the file before the virtual IP (the resource name, the
/// mount unit, or the mount point and filesystem type of the OCF strategy) holding the IP
/// agent's name.
pub proof fn law_promoter_vip_read_back(c: PromoterPluginConfig)
    requires
        c.vip is Some,
        free_of(c.resource@, '\n'),
        free_of(c.resource@, '"'),
        !contains(c.resource@, vip_marker()),
        no_ws(c.vip->0.address@),
        free_of(c.vip->0.address@, '"'),
        !uses_ocf_mount(c) ==> !contains(text_or_empty(c.mount_unit), vip_marker()),
        uses_ocf_mount(c) ==> !contains(text_or_empty(c.mount_point), vip_marker()) && !contains(
            text_or_empty(c.fs_type),
            vip_marker(),
        ),
    ensures
        config_vip(promoter_text(c)) == Some((c.vip->0.address@, c.vip->0.netmask)),
{
    let v = c.vip->0;
    let r = c.resource@;
    let e = "ocf:heartbeat:IPaddr2 "@ + r + "_vip ip="@ + v.address@ + " cidr_netmask="@ + decimal(
        v.netmask as nat,
    );
    assert(vip_entries(c) == seq![e]);
    lemma_decimal_digits(v.netmask as nat);
    reveal_strlit("ocf:heartbeat:IPaddr2 ");
    reveal_strlit("_vip ip=");
    reveal_strlit(" cidr_netmask=");
    reveal_strlit("    \"");
    reveal_strlit("\",");
    assert(free_of(e, '\n')) by {
        assert forall|j: int| 0 <= j < e.len() implies e[j] != '\n' by {
            if 22 <= j < 22 + r.len() {
                assert(e[j] == r[j - 22]);
            } else if 30 + r.len() <= j < 30 + r.len() + v.address@.len() {
                assert(e[j] == v.address@[j - 30 - r.len()]);
                assert(!is_ws(v.address@[j - 30 - r.len()]));
            } else if j >= 44 + r.len() + v.address@.len() {
                assert(is_digit(decimal(v.netmask as nat)[j - 44 - r.len() - v.address@.len()]));
            }
        }
    }
    let qe = quoted(e);
    assert(plain_line(qe)) by {
        assert forall|j: int| 0 <= j < qe.len() implies qe[j] != '\n' by {
            if 5 <= j < 5 + e.len() {
                assert(qe[j] == e[j - 5]);
            }
        }
    }
    lemma_promoter_lines_with_vip(c);
    lemma_mount_entry_no_marker(c);
    let mq = if mount_entries(c).len() == 1 {
        lines_fold(quoted(mount_entries(c)[0]) + "\n"@).0
    } else {
        Seq::<Seq<char>>::empty()
    };
    assert(vip_in_lines(mq) is None) by {
        if mount_entries(c).len() == 1 {
            reveal_strlit("ocf:heartbeat:IPaddr2");
            lemma_fold_no_match(quoted(mount_entries(c)[0]) + "\n"@, vip_marker());
            assert forall|k: int| 0 <= k < mq.len() implies vip_in_line(#[trigger] mq[k]) is None by {
                lemma_no_vip_without_marker(mq[k]);
            }
        }
        lemma_vip_in_lines_none(mq);
    }
    let rest = lines(start_lines(agent_entries(c) + service_entries(c)) + "]\n"@ + promoter_settings(c));
    lemma_vip_line(r, v.address@, v.netmask);
    lemma_header_no_vip(r);
    let h = header_lines(r);
    lemma_vip_in_lines_append(h, mq + (seq![qe] + rest));
    lemma_vip_in_lines_append(mq, seq![qe] + rest);
    assert(h + mq + seq![qe] + rest =~= h + (mq + (seq![qe] + rest)));
    assert(vip_in_lines(seq![qe] + rest) == vip_in_line(qe)) by {
        assert((seq![qe] + rest)[0] == qe);
    }
}

/// The systemd mount unit written into a promoter file is the one the profile reader finds
/// there, read back as its mount point: for the default (systemd) mount strategy, a resource
/// name without whitespace, quotes or colons, and a unit name ending in `.mount` without
/// quotes or newlines.
pub proof fn law_promoter_mount_read_back(c: PromoterPluginConfig)
    requires
        !uses_ocf_mount(c),
        is_set(c.mount_unit),
        ends_with(text_or_empty(c.mount_unit), ".mount"@),
        free_of(text_or_empty(c.mount_unit), '"'),
        free_of(text_or_empty(c.mount_unit), '\n'),
        plain_resource(c.resource@),
        c.vip is Some ==> no_ws(c.vip->0.address@),
    ensures
        config_mount_point(promoter_text(c)) == Some(unit_mount_point(text_or_empty(c.mount_unit))),
{
    let r = c.resource@;
    let u = text_or_empty(c.mount_unit);
    let mv = mount_entries(c) + vip_entries(c);
    lemma_plain_resource_line(r);
    reveal_strlit("ocf:heartbeat:IPaddr2 ");
    reveal_strlit("_vip ip=");
    reveal_strlit(" cidr_netmask=");
    assert forall|k: int| 0 <= k < mv.len() implies free_of(#[trigger] mv[k], '\n') by {
        if k == 0 {
            assert(mv[k] == u);
        } else {
            let v = c.vip->0;
            lemma_decimal_digits(v.netmask as nat);
            let e = mv[k];
            assert(e == "ocf:heartbeat:IPaddr2 "@ + r + "_vip ip="@ + v.address@ + " cidr_netmask="@
                + decimal(v.netmask as nat));
            assert forall|j: int| 0 <= j < e.len() implies e[j] != '\n' by {
                if 22 <= j < 22 + r.len() {
                    assert(e[j] == r[j - 22]);
                    assert(!is_ws(r[j - 22]));
                } else if 30 + r.len() <= j < 30 + r.len() + v.address@.len() {
                    assert(e[j] == v.address@[j - 30 - r.len()]);
                    assert(!is_ws(v.address@[j - 30 - r.len()]));
                } else if j >= 44 + r.len() + v.address@.len() {
                    assert(is_digit(decimal(v.netmask as nat)[j - 44 - r.len() - v.address@.len()]));
                }
            }
        }
    }
    lemma_promoter_first_lines(c);
    let q = mv.map_values(|x: Seq<char>| quoted(x));
    let rest = lines(start_lines(agent_entries(c) + service_entries(c)) + "]\n"@ + promoter_settings(c));
    lemma_header_no_mount(r);
    lemma_mount_line(u);
    lemma_mount_in_lines_append(header_lines(r), q + rest);
    assert(header_lines(r) + q + rest =~= header_lines(r) + (q + rest));
    assert((q + rest)[0] == quoted(u));
    assert(mount_unit_in_lines(q + rest) == Some(u));
}

} // verus!
