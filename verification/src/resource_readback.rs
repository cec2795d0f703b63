//! What the node import finds in a DRBD resource file the generator wrote: every node that
//! went in comes back out, with its host name and address, in the order it was written.

use vstd::prelude::*;
use crate::config_gen::{
    drbd_resource_text, host_list, node_block, node_blocks, option_line, option_lines,
    options_section, NodeConfig, ResourceConfig,
};
use crate::nodes::{
    address_ip, block_address, node_header, res_node_addresses, res_nodes_from, trim_end_char,
};
use crate::promoter_readback::{
    free_of, line_seq, plain_line, lemma_decimal_digits, lemma_find_first_char, lemma_lines_after,
    lemma_line_seq_append,
};
use crate::text::{
    all_digits, decimal, ends_with, is_digit, is_ws, lines, starts_with, trim, trim_end,
    trim_start,
};

verus! {

// ---------------------------------------------------------------------------
// The lines of a resource file
// ---------------------------------------------------------------------------

/// An option as its line reads.
pub open spec fn option_text(e: (Seq<char>, Seq<char>)) -> Seq<char> {
    "        "@ + (e.0 + " "@ + e.1 + ";"@)
}

proof fn lemma_option_lines(m: Seq<(Seq<char>, Seq<char>)>)
    ensures
        option_lines(m) == line_seq(m.map_values(|e: (Seq<char>, Seq<char>)| option_text(e))),
    decreases m.len(),
{
    reveal_strlit("\n");
    if m.len() > 0 {
        lemma_option_lines(m.drop_last());
        assert(m.drop_last().map_values(|e: (Seq<char>, Seq<char>)| option_text(e))
            =~= m.map_values(|e: (Seq<char>, Seq<char>)| option_text(e)).drop_last());
        assert(option_line(m.last()) =~= option_text(m.last()) + "\n"@);
        assert(option_lines(m) =~= line_seq(
            m.map_values(|e: (Seq<char>, Seq<char>)| option_text(e)),
        ));
    }
}

/// The lines of one node's block.
pub open spec fn block_lines(n: NodeConfig, port: u16, device: Seq<char>, minor: u32) -> Seq<
    Seq<char>,
> {
    seq![
        "    on "@ + n.hostname@ + " {"@,
        "        node-id "@ + decimal(n.node_id as nat) + ";"@,
        "        address "@ + n.ip@ + ":"@ + decimal(port as nat) + ";"@,
        "        volume 0 {"@,
        "            device "@ + device + " minor "@ + decimal(minor as nat) + ";"@,
        "            disk "@ + n.disk@ + ";"@,
        "            meta-disk internal;"@,
        "        }"@,
        "    }"@,
        ""@,
    ]
}

/// The text of ten lines.
proof fn lemma_line_seq_ten(b: Seq<Seq<char>>)
    requires
        b.len() == 10,
    ensures
        line_seq(b) == b[0] + "\n"@ + b[1] + "\n"@ + b[2] + "\n"@ + b[3] + "\n"@ + b[4] + "\n"@
            + b[5] + "\n"@ + b[6] + "\n"@ + b[7] + "\n"@ + b[8] + "\n"@ + b[9] + "\n"@,
{
    reveal_with_fuel(line_seq, 11);
    assert(b.drop_last().drop_last().drop_last().drop_last().drop_last().drop_last().drop_last().drop_last().drop_last().drop_last() =~= Seq::<Seq<char>>::empty());
    assert(b.drop_last().drop_last().drop_last().drop_last().drop_last().drop_last().drop_last().drop_last().drop_last() =~= seq![b[0]]);
    assert(b.drop_last().drop_last().drop_last().drop_last().drop_last().drop_last().drop_last().drop_last() =~= seq![b[0], b[1]]);
    assert(b.drop_last().drop_last().drop_last().drop_last().drop_last().drop_last().drop_last() =~= seq![b[0], b[1], b[2]]);
    assert(b.drop_last().drop_last().drop_last().drop_last().drop_last().drop_last() =~= seq![b[0], b[1], b[2], b[3]]);
    assert(b.drop_last().drop_last().drop_last().drop_last().drop_last() =~= seq![b[0], b[1], b[2], b[3], b[4]]);
    assert(b.drop_last().drop_last().drop_last().drop_last() =~= seq![b[0], b[1], b[2], b[3], b[4], b[5]]);
    assert(b.drop_last().drop_last().drop_last() =~= seq![b[0], b[1], b[2], b[3], b[4], b[5], b[6]]);
    assert(b.drop_last().drop_last() =~= seq![b[0], b[1], b[2], b[3], b[4], b[5], b[6], b[7]]);
    assert(b.drop_last() =~= seq![b[0], b[1], b[2], b[3], b[4], b[5], b[6], b[7], b[8]]);
    assert(Seq::<char>::empty() + b[0] =~= b[0]);
}

#[verifier::spinoff_prover]
#[verifier::rlimit(40)]
proof fn lemma_block_text(n: NodeConfig, port: u16, device: Seq<char>, minor: u32)
    ensures
        node_block(n, port, device, minor) == line_seq(block_lines(n, port, device, minor)),
{
    let b = block_lines(n, port, device, minor);
    lemma_line_seq_ten(b);
    let a = "    "@ + ("on "@ + n.hostname@ + " {"@);
    let x1 = "node-id "@ + decimal(n.node_id as nat);
    let x2 = "address "@ + n.ip@ + ":"@ + decimal(port as nat);
    let x4 = "device "@ + device + " minor "@ + decimal(minor as nat);
    let x5 = "disk "@ + n.disk@ + ";"@;
    let l1 = "\n        "@;
    let l2 = ";\n        "@;
    let l3 = ";\n        volume 0 {\n            "@;
    let l4 = ";\n            "@;
    let l5 = "\n            meta-disk internal;\n        }\n    }\n\n"@;
    let nl = "\n"@;
    let s8 = "        "@;
    let s12 = "            "@;
    reveal_strlit("\n");
    reveal_strlit("        ");
    reveal_strlit("            ");
    reveal_strlit(";");
    assert(a == b[0]) by {
        reveal_strlit("    ");
        reveal_strlit("on ");
        reveal_strlit("    on ");
        assert(a =~= b[0]);
    }
    let q1 = b[0] + nl + b[1] + nl;
    assert(a + l1 + x1 + l2 =~= q1 + s8) by {
        reveal_strlit("\n        ");
        reveal_strlit("node-id ");
        reveal_strlit(";\n        ");
        reveal_strlit("        node-id ");
    }
    let q2 = q1 + b[2] + nl + b[3] + nl;
    assert(q1 + s8 + x2 + l3 =~= q2 + s12) by {
        reveal_strlit("address ");
        reveal_strlit(";\n        volume 0 {\n            ");
        reveal_strlit("        address ");
        reveal_strlit("        volume 0 {");
    }
    let q3 = q2 + b[4] + nl;
    assert(q2 + s12 + x4 + l4 =~= q3 + s12) by {
        reveal_strlit("device ");
        reveal_strlit(" minor ");
        reveal_strlit(";\n            ");
        reveal_strlit("            device ");
    }
    let q4 = q3 + b[5];
    assert(q3 + s12 + x5 =~= q4) by {
        reveal_strlit("disk ");
        reveal_strlit("            disk ");
    }
    assert(q4 + l5 =~= line_seq(b)) by {
        reveal_strlit("\n            meta-disk internal;\n        }\n    }\n\n");
        reveal_strlit("            meta-disk internal;");
        reveal_strlit("        }");
        reveal_strlit("    }");
        reveal_strlit("");
    }
    assert(node_block(n, port, device, minor) == a + l1 + x1 + l2 + x2 + l3 + x4 + l4 + x5 + l5);
}

/// The lines of the blocks of nodes `ns`, in order.
pub open spec fn node_lines(ns: Seq<NodeConfig>, port: u16, device: Seq<char>, minor: u32) -> Seq<
    Seq<char>,
>
    decreases ns.len(),
{
    if ns.len() == 0 {
        Seq::empty()
    } else {
        node_lines(ns.drop_last(), port, device, minor) + block_lines(ns.last(), port, device, minor)
    }
}

proof fn lemma_node_blocks_text(ns: Seq<NodeConfig>, port: u16, device: Seq<char>, minor: u32)
    ensures
        node_blocks(ns, port, device, minor) == line_seq(node_lines(ns, port, device, minor)),
    decreases ns.len(),
{
    if ns.len() == 0 {
        assert(line_seq(Seq::<Seq<char>>::empty()) == Seq::<char>::empty());
    } else {
        lemma_node_blocks_text(ns.drop_last(), port, device, minor);
        lemma_block_text(ns.last(), port, device, minor);
        lemma_line_seq_append(
            node_lines(ns.drop_last(), port, device, minor),
            block_lines(ns.last(), port, device, minor),
        );
    }
}

/// The lines of the `options` section.
pub open spec fn options_lines(auto_promote: bool) -> Seq<Seq<char>> {
    seq!["    options {"@, "        auto-promote "@ + (if auto_promote {
        "yes"@
    } else {
        "no"@
    }) + ";"@, "        quorum majority;"@, "        on-no-quorum io-error;"@] + (if auto_promote {
        Seq::empty()
    } else {
        seq![
            "        on-suspended-primary-outdated force-secondary;"@,
            "        on-no-data-accessible io-error;"@,
        ]
    }) + seq!["    }"@, ""@]
}

proof fn lemma_options_text(auto_promote: bool)
    ensures
        options_section(auto_promote) == line_seq(options_lines(auto_promote)),
{
    let w: Seq<char> = if auto_promote {
        "yes"@
    } else {
        "no"@
    };
    let head = seq![
        "    options {"@,
        "        auto-promote "@ + w + ";"@,
        "        quorum majority;"@,
        "        on-no-quorum io-error;"@,
    ];
    let extra: Seq<Seq<char>> = if auto_promote {
        Seq::empty()
    } else {
        seq![
            "        on-suspended-primary-outdated force-secondary;"@,
            "        on-no-data-accessible io-error;"@,
        ]
    };
    let close = seq!["    }"@, ""@];
    reveal_strlit("\n");
    reveal_strlit(";");
    assert(line_seq(head) == "    options {\n        "@ + ("auto-promote "@ + w)
        + ";\n        quorum majority;\n        on-no-quorum io-error;\n"@) by {
        reveal_with_fuel(line_seq, 5);
        assert(head.drop_last().drop_last().drop_last().drop_last() =~= Seq::<Seq<char>>::empty());
        assert(head.drop_last().drop_last().drop_last() =~= seq![head[0]]);
        assert(head.drop_last().drop_last() =~= seq![head[0], head[1]]);
        assert(head.drop_last() =~= seq![head[0], head[1], head[2]]);
        reveal_strlit("    options {");
        reveal_strlit("        auto-promote ");
        reveal_strlit("auto-promote ");
        reveal_strlit("        quorum majority;");
        reveal_strlit("        on-no-quorum io-error;");
        reveal_strlit("    options {\n        ");
        reveal_strlit(";\n        quorum majority;\n        on-no-quorum io-error;\n");
        assert(line_seq(head) =~= "    options {\n        "@ + ("auto-promote "@ + w)
            + ";\n        quorum majority;\n        on-no-quorum io-error;\n"@);
    }
    assert(line_seq(extra) == (if auto_promote {
        Seq::<char>::empty()
    } else {
        "        "@ + "on-suspended-primary-outdated force-secondary;"@ + "\n        "@
            + "on-no-data-accessible io-error;"@ + "\n"@
    })) by {
        if !auto_promote {
            reveal_with_fuel(line_seq, 3);
            assert(extra.drop_last().drop_last() =~= Seq::<Seq<char>>::empty());
            assert(extra.drop_last() =~= seq![extra[0]]);
            reveal_strlit("        ");
            reveal_strlit("on-suspended-primary-outdated force-secondary;");
            reveal_strlit("\n        ");
            reveal_strlit("on-no-data-accessible io-error;");
            reveal_strlit("        on-suspended-primary-outdated force-secondary;");
            reveal_strlit("        on-no-data-accessible io-error;");
            assert(line_seq(extra) =~= "        "@ + "on-suspended-primary-outdated force-secondary;"@
                + "\n        "@ + "on-no-data-accessible io-error;"@ + "\n"@);
        }
    }
    assert(line_seq(close) == "    }\n\n"@) by {
        reveal_with_fuel(line_seq, 3);
        assert(close.drop_last().drop_last() =~= Seq::<Seq<char>>::empty());
        assert(close.drop_last() =~= seq![close[0]]);
        reveal_strlit("    }");
        reveal_strlit("");
        reveal_strlit("    }\n\n");
        assert(line_seq(close) =~= "    }\n\n"@);
    }
    lemma_line_seq_append(head, extra);
    lemma_line_seq_append(head + extra, close);
    assert(options_lines(auto_promote) =~= head + extra + close);
    assert(options_section(auto_promote) =~= line_seq(head) + line_seq(extra) + line_seq(close));
}

/// The option lines of a map.
pub open spec fn option_texts(m: Seq<(Seq<char>, Seq<char>)>) -> Seq<Seq<char>> {
    m.map_values(|e: (Seq<char>, Seq<char>)| option_text(e))
}

/// The lines before the `options` section.
pub open spec fn head_lines(name: Seq<char>) -> Seq<Seq<char>> {
    seq![
        "# DRBD resource configuration"@,
        "# Generated by drbd-ha"@,
        ""@,
        "resource "@ + name + " {"@,
    ]
}

/// The lines before the node blocks.
pub open spec fn pre_lines(c: ResourceConfig) -> Seq<Seq<char>> {
    head_lines(c.name@) + options_lines(c.auto_promote) + seq!["    disk {"@] + option_texts(
        c.disk_options@,
    ) + seq!["    }"@, ""@, "    net {"@] + option_texts(c.net_options@) + seq!["    }"@, ""@]
}

/// The lines after the node blocks.
pub open spec fn tail_lines(ns: Seq<NodeConfig>) -> Seq<Seq<char>> {
    seq!["    connection-mesh {"@, "        hosts"@ + host_list(ns) + ";"@, "    }"@, "}"@]
}

/// The lines of the resource file for `c`.
pub open spec fn resource_lines(c: ResourceConfig) -> Seq<Seq<char>> {
    pre_lines(c) + node_lines(c.nodes@, c.port, c.device@, c.minor) + tail_lines(c.nodes@)
}

proof fn lemma_line_seq_one(l: Seq<char>)
    ensures
        line_seq(seq![l]) == l + "\n"@,
{
    reveal_with_fuel(line_seq, 2);
    assert(seq![l].drop_last() =~= Seq::<Seq<char>>::empty());
    assert(Seq::<char>::empty() + l =~= l);
}

proof fn lemma_head_text(name: Seq<char>)
    ensures
        "# DRBD resource configuration\n# Generated by drbd-ha\n\n"@ + ("resource "@ + name)
            + " {\n"@ == line_seq(head_lines(name)),
{
    let h = head_lines(name);
    reveal_with_fuel(line_seq, 5);
    assert(h.drop_last().drop_last().drop_last().drop_last() =~= Seq::<Seq<char>>::empty());
    assert(h.drop_last().drop_last().drop_last() =~= seq![h[0]]);
    assert(h.drop_last().drop_last() =~= seq![h[0], h[1]]);
    assert(h.drop_last() =~= seq![h[0], h[1], h[2]]);
    reveal_strlit("# DRBD resource configuration\n# Generated by drbd-ha\n\n");
    reveal_strlit("# DRBD resource configuration");
    reveal_strlit("# Generated by drbd-ha");
    reveal_strlit("");
    reveal_strlit("resource ");
    reveal_strlit(" {");
    reveal_strlit(" {\n");
    reveal_strlit("\n");
    assert("# DRBD resource configuration\n# Generated by drbd-ha\n\n"@ + ("resource "@ + name)
        + " {\n"@ =~= line_seq(h));
}

proof fn lemma_tail_text(ns: Seq<NodeConfig>)
    ensures
        "    connection-mesh {\n        "@ + ("hosts"@ + host_list(ns)) + ";\n    }\n}\n"@ == line_seq(
            tail_lines(ns),
        ),
{
    let t = tail_lines(ns);
    reveal_with_fuel(line_seq, 5);
    assert(t.drop_last().drop_last().drop_last().drop_last() =~= Seq::<Seq<char>>::empty());
    assert(t.drop_last().drop_last().drop_last() =~= seq![t[0]]);
    assert(t.drop_last().drop_last() =~= seq![t[0], t[1]]);
    assert(t.drop_last() =~= seq![t[0], t[1], t[2]]);
    reveal_strlit("    connection-mesh {\n        ");
    reveal_strlit("    connection-mesh {");
    reveal_strlit("        hosts");
    reveal_strlit("hosts");
    reveal_strlit(";");
    reveal_strlit(";\n    }\n}\n");
    reveal_strlit("    }");
    reveal_strlit("}");
    reveal_strlit("\n");
    assert("    connection-mesh {\n        "@ + ("hosts"@ + host_list(ns)) + ";\n    }\n}\n"@
        =~= line_seq(t));
}

proof fn lemma_section_lines()
    ensures
        line_seq(seq!["    disk {"@]) == "    disk {\n"@,
        line_seq(seq!["    }"@, ""@, "    net {"@]) == "    }\n\n    net {\n"@,
        line_seq(seq!["    }"@, ""@]) == "    }\n\n"@,
{
    let d1 = seq!["    disk {"@];
    let d2 = seq!["    }"@, ""@, "    net {"@];
    let d3 = seq!["    }"@, ""@];
    reveal_strlit("\n");
    reveal_strlit("    }");
    reveal_strlit("");
    assert(line_seq(d1) == "    disk {\n"@) by {
        lemma_line_seq_one("    disk {"@);
        reveal_strlit("    disk {");
        reveal_strlit("    disk {\n");
        assert("    disk {"@ + "\n"@ =~= "    disk {\n"@);
    }
    assert(line_seq(d2) == "    }\n\n    net {\n"@) by {
        reveal_with_fuel(line_seq, 4);
        assert(d2.drop_last().drop_last().drop_last() =~= Seq::<Seq<char>>::empty());
        assert(d2.drop_last().drop_last() =~= seq![d2[0]]);
        assert(d2.drop_last() =~= seq![d2[0], d2[1]]);
        reveal_strlit("    net {");
        reveal_strlit("    }\n\n    net {\n");
        assert(line_seq(d2) =~= "    }\n\n    net {\n"@);
    }
    assert(line_seq(d3) == "    }\n\n"@) by {
        reveal_with_fuel(line_seq, 3);
        assert(d3.drop_last().drop_last() =~= Seq::<Seq<char>>::empty());
        assert(d3.drop_last() =~= seq![d3[0]]);
        reveal_strlit("    }\n\n");
        assert(line_seq(d3) =~= "    }\n\n"@);
    }
}

/// The resource file is the text of its lines.
proof fn lemma_resource_text(c: ResourceConfig)
    ensures
        drbd_resource_text(c) == line_seq(resource_lines(c)),
{
    let name = c.name@;
    let ns = c.nodes@;
    let h = head_lines(name);
    let o = options_lines(c.auto_promote);
    let d1 = seq!["    disk {"@];
    let dm = option_texts(c.disk_options@);
    let d2 = seq!["    }"@, ""@, "    net {"@];
    let nm = option_texts(c.net_options@);
    let d3 = seq!["    }"@, ""@];
    let nb = node_lines(ns, c.port, c.device@, c.minor);
    let t = tail_lines(ns);
    assert(line_seq(resource_lines(c)) == line_seq(h) + line_seq(o) + line_seq(d1) + line_seq(dm)
        + line_seq(d2) + line_seq(nm) + line_seq(d3) + line_seq(nb) + line_seq(t)) by {
        lemma_line_seq_append(h, o);
        lemma_line_seq_append(h + o, d1);
        lemma_line_seq_append(h + o + d1, dm);
        lemma_line_seq_append(h + o + d1 + dm, d2);
        lemma_line_seq_append(h + o + d1 + dm + d2, nm);
        lemma_line_seq_append(h + o + d1 + dm + d2 + nm, d3);
        lemma_line_seq_append(h + o + d1 + dm + d2 + nm + d3, nb);
        lemma_line_seq_append(h + o + d1 + dm + d2 + nm + d3 + nb, t);
        assert(resource_lines(c) =~= h + o + d1 + dm + d2 + nm + d3 + nb + t);
    }
    lemma_head_text(name);
    lemma_options_text(c.auto_promote);
    lemma_option_lines(c.disk_options@);
    lemma_option_lines(c.net_options@);
    lemma_node_blocks_text(ns, c.port, c.device@, c.minor);
    lemma_tail_text(ns);
    lemma_section_lines();
}

// ---------------------------------------------------------------------------
// Trimming
// ---------------------------------------------------------------------------

/// `w` has no whitespace at either end.
pub open spec fn bare(w: Seq<char>) -> bool {
    w.len() == 0 || (!is_ws(w[0]) && !is_ws(w.last()))
}

/// `p` is all whitespace.
pub open spec fn blank(p: Seq<char>) -> bool {
    forall|i: int| 0 <= i < p.len() ==> is_ws(#[trigger] p[i])
}

proof fn lemma_trim_start_blank(p: Seq<char>, x: Seq<char>)
    requires
        blank(p),
    ensures
        trim_start(p + x) == trim_start(x),
    decreases p.len(),
{
    if p.len() == 0 {
        assert(p + x =~= x);
    } else {
        assert(is_ws(p[0]));
        assert((p + x)[0] == p[0]);
        assert((p + x).drop_first() =~= p.drop_first() + x);
        assert(blank(p.drop_first())) by {
            assert forall|i: int| 0 <= i < p.drop_first().len() implies is_ws(
                #[trigger] p.drop_first()[i],
            ) by {
                assert(p.drop_first()[i] == p[i + 1]);
            }
        }
        lemma_trim_start_blank(p.drop_first(), x);
    }
}

/// Whitespace before a word is trimmed away, and nothing of the word.
proof fn lemma_trim_word(p: Seq<char>, x: Seq<char>)
    requires
        blank(p),
        x.len() > 0,
        !is_ws(x[0]),
        !is_ws(x.last()),
    ensures
        trim(p + x) == x,
{
    lemma_trim_start_blank(p, x);
}

/// A bare word between two spaces trims to itself.
proof fn lemma_trim_spaced(h: Seq<char>)
    requires
        bare(h),
    ensures
        trim(seq![' '] + h + seq![' ']) == h,
{
    let x = h + seq![' '];
    assert(blank(seq![' ']));
    assert(seq![' '] + h + seq![' '] =~= seq![' '] + x);
    lemma_trim_start_blank(seq![' '], x);
    assert(is_ws(' '));
    if h.len() == 0 {
        assert(x =~= seq![' ']);
        assert(x.drop_first() =~= Seq::<char>::empty());
        assert(trim_start(x) == trim_start(Seq::<char>::empty()));
        assert(trim_start(Seq::<char>::empty()) == Seq::<char>::empty());
        assert(trim_end(Seq::<char>::empty()) == Seq::<char>::empty());
    } else {
        assert(x[0] == h[0]);
        assert(trim_start(x) == x);
        assert(x.drop_last() =~= h);
        assert(x.last() == ' ');
        assert(trim_end(x) == trim_end(h));
        assert(trim_end(h) == h);
    }
}

/// Trimming keeps a last character that is not whitespace.
proof fn lemma_trim_start_keeps_last(s: Seq<char>)
    requires
        s.len() > 0,
        !is_ws(s.last()),
    ensures
        trim_start(s).len() > 0,
        trim_start(s).last() == s.last(),
    decreases s.len(),
{
    if is_ws(s[0]) {
        assert(s.len() > 1);
        assert(s.drop_first().last() == s.last());
        lemma_trim_start_keeps_last(s.drop_first());
    }
}

// ---------------------------------------------------------------------------
// Which lines open a node block
// ---------------------------------------------------------------------------

/// A line whose last character is neither whitespace nor `{` opens no node block.
proof fn lemma_no_header_end(l: Seq<char>)
    requires
        l.len() > 0,
        !is_ws(l.last()),
        l.last() != '{',
    ensures
        node_header(l) is None,
{
    lemma_trim_start_keeps_last(l);
    let t = trim(l);
    assert(t == trim_start(l));
    reveal_strlit("{");
    if ends_with(t, "{"@) {
        assert(t.subrange(t.len() - 1, t.len() as int)[0] == t.last());
    }
}

/// A word after indentation that does not begin with `on ` opens no node block.
proof fn lemma_no_header_word(p: Seq<char>, x: Seq<char>)
    requires
        blank(p),
        x.len() > 0,
        !is_ws(x[0]),
        !is_ws(x.last()),
        !starts_with(x, "on "@),
    ensures
        node_header(p + x) is None,
{
    lemma_trim_word(p, x);
}

// ---------------------------------------------------------------------------
// Reading node blocks from lines
// ---------------------------------------------------------------------------

proof fn lemma_block_address_shift(p: Seq<Seq<char>>, q: Seq<Seq<char>>, j: int, l: int)
    requires
        j >= 0,
    ensures
        block_address(p + q, p.len() + j, p.len() + l) == block_address(q, j, l),
    decreases q.len() - j,
{
    if j < q.len() && j < l {
        assert((p + q)[p.len() + j] == q[j]);
        lemma_block_address_shift(p, q, j + 1, l);
    }
}

proof fn lemma_res_nodes_shift(p: Seq<Seq<char>>, q: Seq<Seq<char>>, j: int)
    requires
        j >= 0,
    ensures
        res_nodes_from(p + q, p.len() + j) == res_nodes_from(q, j),
    decreases q.len() - j,
{
    if j < q.len() {
        assert((p + q)[p.len() + j] == q[j]);
        lemma_block_address_shift(p, q, j + 1, j + 20);
        lemma_res_nodes_shift(p, q, j + 1);
    }
}

/// Lines that open no node block contribute nothing.
proof fn lemma_res_nodes_skip(p: Seq<Seq<char>>, q: Seq<Seq<char>>, i: int)
    requires
        0 <= i <= p.len(),
        forall|k: int| 0 <= k < p.len() ==> node_header(#[trigger] p[k]) is None,
    ensures
        res_nodes_from(p + q, i) == res_nodes_from(q, 0),
    decreases p.len() - i,
{
    if i == p.len() {
        lemma_res_nodes_shift(p, q, 0);
    } else {
        assert((p + q)[i] == p[i]);
        lemma_res_nodes_skip(p, q, i + 1);
        assert(res_nodes_from(p + q, i) =~= Seq::<(Seq<char>, Seq<char>)>::empty() + res_nodes_from(
            p + q,
            i + 1,
        ));
    }
}

/// The address line of a node block gives the node's address back.
proof fn lemma_address_line(ip: Seq<char>, pt: Seq<char>)
    requires
        bare(ip),
        free_of(ip, ':'),
        pt.len() > 0,
        all_digits(pt),
    ensures
        ({
            let l = "        address "@ + ip + ":"@ + pt + ";"@;
            &&& trim(l) != "}"@
            &&& starts_with(trim(l), "address "@)
            &&& address_ip(trim(l)) == Some(ip)
        }),
{
    reveal_strlit("        address ");
    reveal_strlit("        ");
    reveal_strlit("address ");
    reveal_strlit(":");
    reveal_strlit(";");
    reveal_strlit("}");
    let l = "        address "@ + ip + ":"@ + pt + ";"@;
    let y = "address "@ + ip + ":"@ + pt + ";"@;
    assert(blank("        "@));
    assert(l =~= "        "@ + y);
    lemma_trim_word("        "@, y);
    assert(trim(l) == y);
    assert(y.len() != 1);
    assert(y.subrange(0, 8) =~= "address "@);
    let z = ip + ":"@ + pt + ";"@;
    assert(y.skip(8) =~= z);
    assert(is_digit(pt[pt.len() - 1]));
    if ip.len() > 0 {
        assert(z[0] == ip[0]);
    } else {
        assert(z[0] == ':');
    }
    assert(blank(Seq::<char>::empty()));
    assert(Seq::<char>::empty() + z =~= z);
    lemma_trim_word(Seq::<char>::empty(), z);
    let w = ip + ":"@ + pt;
    assert(z.drop_last() =~= w);
    assert(w.last() == pt.last());
    assert(trim_end_char(w, ';') == w);
    assert(trim_end_char(z, ';') == w);
    assert forall|j: int| 0 <= j < ip.len() implies w[j] != ':' by {
        assert(w[j] == ip[j]);
    }
    assert(w[ip.len() as int] == ':');
    lemma_find_first_char(w, ':', ip.len() as int);
    assert(seq![':'] =~= ":"@);
    assert(w.take(ip.len() as int) =~= ip);
    if ip.len() > 0 {
        assert(Seq::<char>::empty() + ip =~= ip);
        lemma_trim_word(Seq::<char>::empty(), ip);
    } else {
        assert(ip =~= Seq::<char>::empty());
    }
}

/// What the import reads from one node block.
pub open spec fn addresses_of(ns: Seq<NodeConfig>) -> Seq<(Seq<char>, Seq<char>)> {
    ns.map_values(|n: NodeConfig| (n.hostname@, n.ip@))
}

/// A node whose block reads back: host name and address without surrounding whitespace,
/// no `:` in the address.
pub open spec fn readable_node(n: NodeConfig) -> bool {
    bare(n.hostname@) && bare(n.ip@) && free_of(n.ip@, ':')
}

#[verifier::rlimit(40)]
proof fn lemma_block_read(n: NodeConfig, port: u16, device: Seq<char>, minor: u32, t: Seq<Seq<char>>)
    requires
        readable_node(n),
    ensures
        res_nodes_from(block_lines(n, port, device, minor) + t, 0) == seq![(n.hostname@, n.ip@)]
            + res_nodes_from(t, 0),
{
    let b = block_lines(n, port, device, minor);
    let ls = b + t;
    let h = n.hostname@;
    let id = decimal(n.node_id as nat);
    let pt = decimal(port as nat);
    let mn = decimal(minor as nat);
    lemma_decimal_digits(n.node_id as nat);
    lemma_decimal_digits(port as nat);
    lemma_decimal_digits(minor as nat);
    reveal_strlit("    ");
    reveal_strlit("        ");
    reveal_strlit("    on ");
    reveal_strlit("on ");
    reveal_strlit(" {");
    reveal_strlit("{");
    reveal_strlit(";");
    reveal_strlit("}");
    // the opening line names the host
    let x = "on "@ + h + " {"@;
    assert(blank("    "@));
    assert(b[0] =~= "    "@ + x);
    lemma_trim_word("    "@, x);
    assert(starts_with(x, "on "@)) by {
        assert(x.subrange(0, 3) =~= "on "@);
    }
    assert(ends_with(x, "{"@)) by {
        assert(x.subrange(x.len() - 1, x.len() as int) =~= "{"@);
    }
    assert(x.subrange(2, x.len() - 1) =~= seq![' '] + h + seq![' ']);
    lemma_trim_spaced(h);
    assert(ls[0] == b[0]);
    assert(node_header(ls[0]) == Some(h));
    // the node-id line comes first and is passed over
    let y1 = "node-id "@ + id + ";"@;
    reveal_strlit("node-id ");
    assert(blank("        "@));
    assert(b[1] =~= "        "@ + y1) by {
        reveal_strlit("        node-id ");
        reveal_strlit("node-id ");
    }
    lemma_trim_word("        "@, y1);
    assert(ls[1] == b[1]);
    assert(trim(ls[1]) != "}"@) by {
        assert(y1.len() != 1) by {
            reveal_strlit("node-id ");
        }
    }
    assert(!starts_with(trim(ls[1]), "address "@)) by {
        reveal_strlit("node-id ");
        reveal_strlit("address ");
        if starts_with(y1, "address "@) {
            assert(y1.subrange(0, 8)[0] == y1[0]);
        }
    }
    // then the address line
    assert(ls[2] == b[2]);
    lemma_address_line(n.ip@, pt);
    assert(b[2] == "        address "@ + n.ip@ + ":"@ + pt + ";"@);
    assert(block_address(ls, 2, 20) == Some(n.ip@));
    assert(block_address(ls, 1, 20) == Some(n.ip@));
    // the rest of the block opens no node block
    let rest = b.drop_first();
    assert forall|k: int| 0 <= k < rest.len() implies node_header(#[trigger] rest[k]) is None by {
        assert(rest[k] == b[k + 1]);
        if k == 2 {
            reveal_strlit("        volume 0 {");
            reveal_strlit("volume 0 {");
            assert(b[3] =~= "        "@ + "volume 0 {"@);
            assert(!starts_with("volume 0 {"@, "on "@)) by {
                let v = "volume 0 {"@;
                if starts_with(v, "on "@) {
                    assert(v.subrange(0, 3)[0] == v[0]);
                }
            }
            lemma_no_header_word("        "@, "volume 0 {"@);
        } else if k == 8 {
            reveal_strlit("");
            assert(b[9].len() == 0);
            assert(trim(b[9]) =~= Seq::<char>::empty());
        } else if k == 0 {
            assert(b[1].last() == ';');
            lemma_no_header_end(b[1]);
        } else if k == 1 {
            assert(b[2].last() == ';');
            lemma_no_header_end(b[2]);
        } else if k == 3 {
            reveal_strlit("            device ");
            reveal_strlit(" minor ");
            assert(b[4].last() == ';');
            lemma_no_header_end(b[4]);
        } else if k == 4 {
            reveal_strlit("            disk ");
            assert(b[5].last() == ';');
            lemma_no_header_end(b[5]);
        } else if k == 5 {
            reveal_strlit("            meta-disk internal;");
            assert(b[6].last() == ';');
            lemma_no_header_end(b[6]);
        } else if k == 6 {
            reveal_strlit("        }");
            assert(b[7].last() == '}');
            lemma_no_header_end(b[7]);
        } else {
            reveal_strlit("    }");
            assert(b[8].last() == '}');
            lemma_no_header_end(b[8]);
        }
    }
    assert(ls =~= seq![b[0]] + (rest + t));
    lemma_res_nodes_shift(seq![b[0]], rest + t, 0);
    lemma_res_nodes_skip(rest, t, 0);
    assert(res_nodes_from(ls, 1) == res_nodes_from(t, 0));
}

/// Every node of `ns` reads back.
pub open spec fn readable_nodes(ns: Seq<NodeConfig>) -> bool {
    forall|k: int| 0 <= k < ns.len() ==> readable_node(#[trigger] ns[k])
}

proof fn lemma_node_lines_read(
    ns: Seq<NodeConfig>,
    port: u16,
    device: Seq<char>,
    minor: u32,
    t: Seq<Seq<char>>,
)
    requires
        readable_nodes(ns),
    ensures
        res_nodes_from(node_lines(ns, port, device, minor) + t, 0) == addresses_of(ns)
            + res_nodes_from(t, 0),
    decreases ns.len(),
{
    if ns.len() == 0 {
        assert(node_lines(ns, port, device, minor) + t =~= t);
        assert(addresses_of(ns) + res_nodes_from(t, 0) =~= res_nodes_from(t, 0));
    } else {
        let init = ns.drop_last();
        let b = block_lines(ns.last(), port, device, minor);
        assert(readable_node(ns[ns.len() - 1]));
        assert(readable_nodes(init)) by {
            assert forall|k: int| 0 <= k < init.len() implies readable_node(#[trigger] init[k]) by {
                assert(init[k] == ns[k]);
            }
        }
        lemma_node_lines_read(init, port, device, minor, b + t);
        lemma_block_read(ns.last(), port, device, minor, t);
        assert(node_lines(ns, port, device, minor) + t =~= node_lines(init, port, device, minor) + (b
            + t));
        assert(addresses_of(ns) =~= addresses_of(init).push((ns.last().hostname@, ns.last().ip@)));
        assert(addresses_of(init) + (seq![(ns.last().hostname@, ns.last().ip@)] + res_nodes_from(t, 0))
            =~= addresses_of(ns) + res_nodes_from(t, 0));
    }
}

/// Lines none of which opens a node block.
pub open spec fn no_headers(ls: Seq<Seq<char>>) -> bool {
    forall|k: int| 0 <= k < ls.len() ==> node_header(#[trigger] ls[k]) is None
}

proof fn lemma_no_headers_append(a: Seq<Seq<char>>, b: Seq<Seq<char>>)
    requires
        no_headers(a),
        no_headers(b),
    ensures
        no_headers(a + b),
{
    assert forall|k: int| 0 <= k < (a + b).len() implies node_header(#[trigger] (a + b)[k]) is None by {
        if k < a.len() {
            assert((a + b)[k] == a[k]);
        } else {
            assert((a + b)[k] == b[k - a.len()]);
        }
    }
}

proof fn lemma_empty_line_no_header()
    ensures
        node_header(""@) is None,
{
    reveal_strlit("");
    reveal_strlit("on ");
    assert(trim(""@) =~= Seq::<char>::empty());
}

proof fn lemma_tail_no_headers(ns: Seq<NodeConfig>)
    ensures
        no_headers(tail_lines(ns)),
{
    let t = tail_lines(ns);
    reveal_strlit("    connection-mesh {");
    reveal_strlit("connection-mesh {");
    reveal_strlit("        hosts");
    reveal_strlit(";");
    reveal_strlit("    }");
    reveal_strlit("}");
    reveal_strlit("    ");
    assert forall|k: int| 0 <= k < t.len() implies node_header(#[trigger] t[k]) is None by {
        if k == 0 {
            let x = "connection-mesh {"@;
            assert(blank("    "@));
            assert(t[0] =~= "    "@ + x);
            lemma_word_no_header("    "@, x);
        } else {
            assert(t[k].last() == ';' || t[k].last() == '}');
            lemma_no_header_end(t[k]);
        }
    }
}

proof fn lemma_option_texts_no_headers(m: Seq<(Seq<char>, Seq<char>)>)
    ensures
        no_headers(option_texts(m)),
{
    reveal_strlit(";");
    assert forall|k: int| 0 <= k < option_texts(m).len() implies node_header(
        #[trigger] option_texts(m)[k],
    ) is None by {
        let l = option_texts(m)[k];
        assert(l == option_text(m[k]));
        assert(l.last() == ';');
        lemma_no_header_end(l);
    }
}

proof fn lemma_word_no_header(p: Seq<char>, x: Seq<char>)
    requires
        blank(p),
        x.len() >= 3,
        !is_ws(x[0]),
        !is_ws(x.last()),
        x[0] != 'o' || x[1] != 'n',
    ensures
        node_header(p + x) is None,
{
    reveal_strlit("on ");
    if starts_with(x, "on "@) {
        assert(x.subrange(0, 3)[0] == x[0]);
        assert(x.subrange(0, 3)[1] == x[1]);
    }
    lemma_no_header_word(p, x);
}

proof fn lemma_pre_no_headers(c: ResourceConfig)
    ensures
        no_headers(pre_lines(c)),
{
    let h = head_lines(c.name@);
    let o = options_lines(c.auto_promote);
    let d1 = seq!["    disk {"@];
    let d2 = seq!["    }"@, ""@, "    net {"@];
    let d3 = seq!["    }"@, ""@];
    reveal_strlit("    ");
    reveal_strlit("    }");
    reveal_strlit("}");
    reveal_strlit(";");
    lemma_empty_line_no_header();
    assert(blank("    "@));
    assert(blank(Seq::<char>::empty()));
    assert(no_headers(h)) by {
        reveal_strlit("# DRBD resource configuration");
        reveal_strlit("# Generated by drbd-ha");
        reveal_strlit("resource ");
        reveal_strlit(" {");
        assert forall|k: int| 0 <= k < h.len() implies node_header(#[trigger] h[k]) is None by {
            if k == 0 || k == 1 {
                assert(h[k].last() == 'n' || h[k].last() == 'a');
                lemma_no_header_end(h[k]);
            } else if k == 3 {
                assert(Seq::<char>::empty() + h[3] =~= h[3]);
                lemma_word_no_header(Seq::<char>::empty(), h[3]);
            }
        }
    }
    assert(no_headers(o)) by {
        reveal_strlit("    options {");
        reveal_strlit("options {");
        reveal_strlit("        auto-promote ");
        reveal_strlit("        quorum majority;");
        reveal_strlit("        on-no-quorum io-error;");
        reveal_strlit("        on-suspended-primary-outdated force-secondary;");
        reveal_strlit("        on-no-data-accessible io-error;");
        assert forall|k: int| 0 <= k < o.len() implies node_header(#[trigger] o[k]) is None by {
            if k == 0 {
                assert(o[0] =~= "    "@ + "options {"@);
                lemma_word_no_header("    "@, "options {"@);
            } else if k == o.len() - 1 {
            } else {
                assert(o[k].last() == ';' || o[k].last() == '}');
                lemma_no_header_end(o[k]);
            }
        }
    }
    assert(no_headers(d1)) by {
        reveal_strlit("    disk {");
        reveal_strlit("disk {");
        assert(d1[0] =~= "    "@ + "disk {"@);
        lemma_word_no_header("    "@, "disk {"@);
    }
    assert(no_headers(d2)) by {
        reveal_strlit("    net {");
        reveal_strlit("net {");
        assert(d2[2] =~= "    "@ + "net {"@);
        lemma_word_no_header("    "@, "net {"@);
        lemma_no_header_end(d2[0]);
    }
    assert(no_headers(d3)) by {
        lemma_no_header_end(d3[0]);
    }
    lemma_option_texts_no_headers(c.disk_options@);
    lemma_option_texts_no_headers(c.net_options@);
    lemma_no_headers_append(h, o);
    lemma_no_headers_append(h + o, d1);
    lemma_no_headers_append(h + o + d1, option_texts(c.disk_options@));
    lemma_no_headers_append(h + o + d1 + option_texts(c.disk_options@), d2);
    lemma_no_headers_append(h + o + d1 + option_texts(c.disk_options@) + d2, option_texts(
        c.net_options@,
    ));
    lemma_no_headers_append(
        h + o + d1 + option_texts(c.disk_options@) + d2 + option_texts(c.net_options@),
        d3,
    );
}

/// The nodes read from the lines of a resource file are those it was written for.
proof fn lemma_resource_lines_read(c: ResourceConfig)
    requires
        readable_nodes(c.nodes@),
    ensures
        res_nodes_from(resource_lines(c), 0) == addresses_of(c.nodes@),
{
    let pre = pre_lines(c);
    let nb = node_lines(c.nodes@, c.port, c.device@, c.minor);
    let t = tail_lines(c.nodes@);
    lemma_pre_no_headers(c);
    lemma_tail_no_headers(c.nodes@);
    assert(resource_lines(c) =~= pre + (nb + t));
    lemma_res_nodes_skip(pre, nb + t, 0);
    lemma_node_lines_read(c.nodes@, c.port, c.device@, c.minor, t);
    assert(t =~= t + Seq::<Seq<char>>::empty());
    lemma_res_nodes_skip(t, Seq::<Seq<char>>::empty(), 0);
    assert(res_nodes_from(Seq::<Seq<char>>::empty(), 0) == Seq::<(Seq<char>, Seq<char>)>::empty());
    assert(addresses_of(c.nodes@) + Seq::<(Seq<char>, Seq<char>)>::empty() =~= addresses_of(c.nodes@));
}

// ---------------------------------------------------------------------------
// Every line of the file is a plain line
// ---------------------------------------------------------------------------

/// Every line of `ls` reads back as itself.
pub open spec fn plain_lines(ls: Seq<Seq<char>>) -> bool {
    forall|k: int| 0 <= k < ls.len() ==> plain_line(#[trigger] ls[k])
}

proof fn lemma_plain_lines_append(a: Seq<Seq<char>>, b: Seq<Seq<char>>)
    requires
        plain_lines(a),
        plain_lines(b),
    ensures
        plain_lines(a + b),
{
    assert forall|k: int| 0 <= k < (a + b).len() implies plain_line(#[trigger] (a + b)[k]) by {
        if k < a.len() {
            assert((a + b)[k] == a[k]);
        } else {
            assert((a + b)[k] == b[k - a.len()]);
        }
    }
}

proof fn lemma_free_concat(a: Seq<char>, b: Seq<char>)
    requires
        free_of(a, '\n'),
        free_of(b, '\n'),
    ensures
        free_of(a + b, '\n'),
{
    assert forall|i: int| 0 <= i < (a + b).len() implies (a + b)[i] != '\n' by {
        if i < a.len() {
            assert((a + b)[i] == a[i]);
        } else {
            assert((a + b)[i] == b[i - a.len()]);
        }
    }
}

/// Option keys and values hold no line break.
pub open spec fn plain_options(m: Seq<(Seq<char>, Seq<char>)>) -> bool {
    forall|k: int| 0 <= k < m.len() ==> free_of(#[trigger] m[k].0, '\n') && free_of(m[k].1, '\n')
}

proof fn lemma_option_texts_plain(m: Seq<(Seq<char>, Seq<char>)>)
    requires
        plain_options(m),
    ensures
        plain_lines(option_texts(m)),
{
    reveal_strlit("        ");
    reveal_strlit(" ");
    reveal_strlit(";");
    assert forall|k: int| 0 <= k < option_texts(m).len() implies plain_line(
        #[trigger] option_texts(m)[k],
    ) by {
        let e = m[k];
        assert(option_texts(m)[k] == option_text(e));
        assert(free_of(e.0, '\n') && free_of(e.1, '\n'));
        lemma_free_concat(e.0, " "@);
        lemma_free_concat(e.0 + " "@, e.1);
        lemma_free_concat(e.0 + " "@ + e.1, ";"@);
        lemma_free_concat("        "@, e.0 + " "@ + e.1 + ";"@);
    }
}

proof fn lemma_host_list_plain(ns: Seq<NodeConfig>)
    requires
        forall|k: int| 0 <= k < ns.len() ==> free_of(#[trigger] ns[k].hostname@, '\n'),
    ensures
        free_of(host_list(ns), '\n'),
    decreases ns.len(),
{
    reveal_strlit(" ");
    if ns.len() > 0 {
        let init = ns.drop_last();
        assert forall|k: int| 0 <= k < init.len() implies free_of(#[trigger] init[k].hostname@, '\n') by {
            assert(init[k] == ns[k]);
        }
        lemma_host_list_plain(init);
        assert(free_of(ns[ns.len() - 1].hostname@, '\n'));
        lemma_free_concat(host_list(init), " "@);
        lemma_free_concat(host_list(init) + " "@, ns.last().hostname@);
    }
}

/// A node whose lines read back as written.
pub open spec fn plain_node(n: NodeConfig) -> bool {
    free_of(n.hostname@, '\n') && free_of(n.ip@, '\n') && free_of(n.disk@, '\n')
}

proof fn lemma_decimal_plain(n: nat)
    ensures
        free_of(decimal(n), '\n'),
        decimal(n).len() > 0,
        decimal(n).last() != '\r',
{
    lemma_decimal_digits(n);
    assert forall|i: int| 0 <= i < decimal(n).len() implies decimal(n)[i] != '\n' by {
        assert(is_digit(decimal(n)[i]));
    }
    assert(is_digit(decimal(n)[decimal(n).len() - 1]));
}

#[verifier::rlimit(40)]
proof fn lemma_block_plain(n: NodeConfig, port: u16, device: Seq<char>, minor: u32)
    requires
        plain_node(n),
        free_of(device, '\n'),
    ensures
        plain_lines(block_lines(n, port, device, minor)),
{
    let b = block_lines(n, port, device, minor);
    lemma_decimal_plain(n.node_id as nat);
    lemma_decimal_plain(port as nat);
    lemma_decimal_plain(minor as nat);
    reveal_strlit("    on ");
    reveal_strlit(" {");
    reveal_strlit("        node-id ");
    reveal_strlit(";");
    reveal_strlit("        address ");
    reveal_strlit(":");
    reveal_strlit("        volume 0 {");
    reveal_strlit("            device ");
    reveal_strlit(" minor ");
    reveal_strlit("            disk ");
    reveal_strlit("            meta-disk internal;");
    reveal_strlit("        }");
    reveal_strlit("    }");
    reveal_strlit("");
    assert forall|k: int| 0 <= k < b.len() implies plain_line(#[trigger] b[k]) by {
        if k == 0 {
            lemma_free_concat("    on "@, n.hostname@);
            lemma_free_concat("    on "@ + n.hostname@, " {"@);
        } else if k == 1 {
            lemma_free_concat("        node-id "@, decimal(n.node_id as nat));
            lemma_free_concat("        node-id "@ + decimal(n.node_id as nat), ";"@);
        } else if k == 2 {
            lemma_free_concat("        address "@, n.ip@);
            lemma_free_concat("        address "@ + n.ip@, ":"@);
            lemma_free_concat("        address "@ + n.ip@ + ":"@, decimal(port as nat));
            lemma_free_concat("        address "@ + n.ip@ + ":"@ + decimal(port as nat), ";"@);
        } else if k == 4 {
            lemma_free_concat("            device "@, device);
            lemma_free_concat("            device "@ + device, " minor "@);
            lemma_free_concat("            device "@ + device + " minor "@, decimal(minor as nat));
            lemma_free_concat(
                "            device "@ + device + " minor "@ + decimal(minor as nat),
                ";"@,
            );
        } else if k == 5 {
            lemma_free_concat("            disk "@, n.disk@);
            lemma_free_concat("            disk "@ + n.disk@, ";"@);
        }
    }
}

proof fn lemma_node_lines_plain(ns: Seq<NodeConfig>, port: u16, device: Seq<char>, minor: u32)
    requires
        forall|k: int| 0 <= k < ns.len() ==> plain_node(#[trigger] ns[k]),
        free_of(device, '\n'),
    ensures
        plain_lines(node_lines(ns, port, device, minor)),
    decreases ns.len(),
{
    if ns.len() > 0 {
        let init = ns.drop_last();
        assert forall|k: int| 0 <= k < init.len() implies plain_node(#[trigger] init[k]) by {
            assert(init[k] == ns[k]);
        }
        assert(plain_node(ns[ns.len() - 1]));
        lemma_node_lines_plain(init, port, device, minor);
        lemma_block_plain(ns.last(), port, device, minor);
        lemma_plain_lines_append(
            node_lines(init, port, device, minor),
            block_lines(ns.last(), port, device, minor),
        );
    }
}

proof fn lemma_pre_plain(c: ResourceConfig)
    requires
        free_of(c.name@, '\n'),
        plain_options(c.disk_options@),
        plain_options(c.net_options@),
    ensures
        plain_lines(pre_lines(c)),
{
    let h = head_lines(c.name@);
    let o = options_lines(c.auto_promote);
    let d1 = seq!["    disk {"@];
    let d2 = seq!["    }"@, ""@, "    net {"@];
    let d3 = seq!["    }"@, ""@];
    reveal_strlit("    }");
    reveal_strlit("");
    assert(plain_lines(h)) by {
        reveal_strlit("# DRBD resource configuration");
        reveal_strlit("# Generated by drbd-ha");
        reveal_strlit("resource ");
        reveal_strlit(" {");
        lemma_free_concat("resource "@, c.name@);
        lemma_free_concat("resource "@ + c.name@, " {"@);
        assert(plain_line(h[3]));
        assert(plain_line(h[0]));
        assert(plain_line(h[1]));
        assert(plain_line(h[2]));
    }
    assert(plain_lines(o)) by {
        reveal_strlit("    options {");
        reveal_strlit("        auto-promote ");
        reveal_strlit("yes");
        reveal_strlit("no");
        reveal_strlit(";");
        reveal_strlit("        quorum majority;");
        reveal_strlit("        on-no-quorum io-error;");
        reveal_strlit("        on-suspended-primary-outdated force-secondary;");
        reveal_strlit("        on-no-data-accessible io-error;");
        let w: Seq<char> = if c.auto_promote {
            "yes"@
        } else {
            "no"@
        };
        lemma_free_concat("        auto-promote "@, w);
        lemma_free_concat("        auto-promote "@ + w, ";"@);
        assert forall|k: int| 0 <= k < o.len() implies plain_line(#[trigger] o[k]) by {
            if k == 1 {
                assert(o[1] == "        auto-promote "@ + w + ";"@);
            }
        }
    }
    assert(plain_lines(d1)) by {
        reveal_strlit("    disk {");
        assert(plain_line(d1[0]));
    }
    assert(plain_lines(d2)) by {
        reveal_strlit("    net {");
        assert(plain_line(d2[0]));
        assert(plain_line(d2[1]));
        assert(plain_line(d2[2]));
    }
    assert(plain_lines(d3)) by {
        assert(plain_line(d3[0]));
        assert(plain_line(d3[1]));
    }
    lemma_option_texts_plain(c.disk_options@);
    lemma_option_texts_plain(c.net_options@);
    let dm = option_texts(c.disk_options@);
    let nm = option_texts(c.net_options@);
    lemma_plain_lines_append(h, o);
    lemma_plain_lines_append(h + o, d1);
    lemma_plain_lines_append(h + o + d1, dm);
    lemma_plain_lines_append(h + o + d1 + dm, d2);
    lemma_plain_lines_append(h + o + d1 + dm + d2, nm);
    lemma_plain_lines_append(h + o + d1 + dm + d2 + nm, d3);
}

proof fn lemma_tail_plain(ns: Seq<NodeConfig>)
    requires
        forall|k: int| 0 <= k < ns.len() ==> free_of(#[trigger] ns[k].hostname@, '\n'),
    ensures
        plain_lines(tail_lines(ns)),
{
    let t = tail_lines(ns);
    reveal_strlit("    connection-mesh {");
    reveal_strlit("        hosts");
    reveal_strlit(";");
    reveal_strlit("    }");
    reveal_strlit("}");
    lemma_host_list_plain(ns);
    lemma_free_concat("        hosts"@, host_list(ns));
    lemma_free_concat("        hosts"@ + host_list(ns), ";"@);
    assert(plain_line(t[0]));
    assert(plain_line(t[1]));
    assert(plain_line(t[2]));
    assert(plain_line(t[3]));
}

/// A resource configuration whose file reads back: no line break in any text that goes into
/// the file, and every node's host name and address as `readable_node` asks.
pub open spec fn readable_resource(c: ResourceConfig) -> bool {
    &&& free_of(c.name@, '\n')
    &&& free_of(c.device@, '\n')
    &&& plain_options(c.disk_options@)
    &&& plain_options(c.net_options@)
    &&& forall|k: int|
        0 <= k < c.nodes@.len() ==> plain_node(#[trigger] c.nodes@[k]) && readable_node(
            c.nodes@[k],
        )
}

/// Importing nodes from a DRBD resource file written by the generator gives back exactly the
/// nodes it was written for, in order, each with its host name and address; this holds when
/// no text that goes into the file holds a line break, host names and addresses carry no
/// surrounding whitespace, and no address holds a `:`.
pub proof fn law_resource_nodes_read_back(c: ResourceConfig)
    requires
        readable_resource(c),
    ensures
        res_node_addresses(drbd_resource_text(c)) == addresses_of(c.nodes@),
{
    let ns = c.nodes@;
    assert forall|k: int| 0 <= k < ns.len() implies plain_node(#[trigger] ns[k]) by {}
    assert(readable_nodes(ns));
    assert forall|k: int| 0 <= k < ns.len() implies free_of(#[trigger] ns[k].hostname@, '\n') by {
        assert(plain_node(ns[k]));
    }
    lemma_resource_text(c);
    lemma_pre_plain(c);
    lemma_node_lines_plain(ns, c.port, c.device@, c.minor);
    lemma_tail_plain(ns);
    let pre = pre_lines(c);
    let nb = node_lines(ns, c.port, c.device@, c.minor);
    lemma_plain_lines_append(pre, nb);
    lemma_plain_lines_append(pre + nb, tail_lines(ns));
    let ls = resource_lines(c);
    lemma_lines_after(ls, Seq::<char>::empty());
    assert(line_seq(ls) + Seq::<char>::empty() =~= line_seq(ls));
    assert(lines(Seq::<char>::empty()) =~= Seq::<Seq<char>>::empty());
    assert(ls + Seq::<Seq<char>>::empty() =~= ls);
    lemma_resource_lines_read(c);
}

} // verus!
