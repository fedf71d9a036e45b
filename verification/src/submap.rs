use vstd::prelude::*;
use crate::hyprctl::Bind;
use crate::numbers::dec_str;
use crate::numbers::u64_to_string;
use crate::strutil::str_eq;

verus! {

/// Whether the overlay for submap `name` shows a bind: the bind must belong
/// to that submap and carry a description.
pub open spec fn bind_shown(b: Bind, name: Seq<char>) -> bool {
    &&& b.submap matches Some(s) && s@ == name
    &&& b.description is Some
}

/// The binds the overlay for submap `name` shows, in their original order.
#[verifier::loop_isolation(false)]
pub fn binds_in_submap(all: Vec<Bind>, name: &str) -> (r: Vec<Bind>)
    ensures
        r@ == all@.filter(|b: Bind| bind_shown(b, name@)),
        forall|i: int| 0 <= i < r@.len() ==> (#[trigger] r@[i].description) is Some,
{
    let ghost pred = |b: Bind| bind_shown(b, name@);
    let ghost orig = all@;
    let mut rest = all;
    let mut out: Vec<Bind> = Vec::new();
    proof {
        reveal_with_fuel(Seq::filter, 2);
        assert(orig.take(0).filter(pred) =~= Seq::<Bind>::empty());
    }
    while rest.len() > 0
        invariant
            rest@.len() <= orig.len(),
            rest@ == orig.skip(orig.len() - rest@.len()),
            out@ == orig.take(orig.len() - rest@.len()).filter(pred),
        decreases rest@.len(),
    {
        let ghost done = orig.len() - rest@.len();
        proof {
            assert(rest@[0] == orig[done]);
        }
        let b = rest.remove(0);
        let keep = match &b.submap {
            Some(s) => str_eq(s.as_str(), name) && b.description.is_some(),
            None => false,
        };
        proof {
            reveal_with_fuel(Seq::filter, 3);
            assert(orig.take(done + 1) =~= orig.take(done) + seq![orig[done]]);
            Seq::filter_distributes_over_add(orig.take(done), seq![orig[done]], pred);
            assert(seq![orig[done]].drop_last() =~= Seq::<Bind>::empty());
            if keep {
                assert(seq![orig[done]].filter(pred) =~= seq![orig[done]]);
            } else {
                assert(seq![orig[done]].filter(pred) =~= Seq::<Bind>::empty());
            }
            assert(rest@ =~= orig.skip(orig.len() - rest@.len()));
        }
        if keep {
            out.push(b);
        }
        proof {
            assert(out@ =~= orig.take(orig.len() - rest@.len()).filter(pred));
        }
    }
    proof {
        assert(orig.take(orig.len() as int) =~= orig);
        broadcast use vstd::seq_lib::group_filter_ensures;

        assert forall|i: int| 0 <= i < out@.len() implies (#[trigger] out@[i].description)
            is Some by {
            assert(pred(orig.filter(pred)[i]));
        }
    }
    out
}

/// The character length of the longest key among the binds.
pub open spec fn max_key_len(binds: Seq<Bind>) -> int
    decreases binds.len(),
{
    if binds.len() == 0 {
        0
    } else {
        let rest = max_key_len(binds.drop_last());
        if binds.last().key@.len() > rest {
            binds.last().key@.len() as int
        } else {
            rest
        }
    }
}

/// `n` spaces.
pub open spec fn spaces(n: int) -> Seq<char>
    decreases n,
{
    if n <= 0 {
        Seq::empty()
    } else {
        spaces(n - 1).push(' ')
    }
}

/// One line of the overlay: the key, padding out to one column past the
/// longest key, then the description.
pub open spec fn bind_line(b: Bind, width: int) -> Seq<char>
    recommends
        b.description is Some,
{
    b.key@ + spaces(width + 1 - b.key@.len()) + b.description->Some_0@
}

/// The overlay's whole table: one line per bind, joined with newlines.
pub open spec fn bind_lines(binds: Seq<Bind>, width: int) -> Seq<char>
    decreases binds.len(),
{
    if binds.len() == 0 {
        Seq::empty()
    } else if binds.len() == 1 {
        bind_line(binds[0], width)
    } else {
        bind_lines(binds.drop_last(), width) + seq!['\n'] + bind_line(binds.last(), width)
    }
}

/// The character length of the longest line of the table.
pub open spec fn max_line_len(binds: Seq<Bind>, width: int) -> int
    decreases binds.len(),
{
    if binds.len() == 0 {
        0
    } else {
        let rest = max_line_len(binds.drop_last(), width);
        if bind_line(binds.last(), width).len() > rest {
            bind_line(binds.last(), width).len() as int
        } else {
            rest
        }
    }
}

proof fn lemma_spaces_len(n: int)
    ensures
        spaces(n).len() == if n <= 0 {
            0
        } else {
            n
        },
    decreases n,
{
    if n > 0 {
        lemma_spaces_len(n - 1);
    }
}

proof fn lemma_max_key_le(binds: Seq<Bind>, i: int)
    requires
        0 <= i < binds.len(),
    ensures
        binds[i].key@.len() <= max_key_len(binds),
        max_key_len(binds) >= 0,
    decreases binds.len(),
{
    if binds.len() > 0 {
        if i < binds.len() - 1 {
            lemma_max_key_le(binds.drop_last(), i);
        } else if binds.len() > 1 {
            lemma_max_key_le(binds.drop_last(), 0);
        }
    }
}

/// The shell command, line count and column count for the overlay panel:
/// print the bind table with the cursor hidden, then wait forever.  The
/// bound on key length is a machine limit: the padding width must fit `usize`.
#[verifier::loop_isolation(false)]
pub fn bind_panel_command(binds: &Vec<Bind>) -> (r: (String, usize, usize))
    requires
        forall|i: int| 0 <= i < binds@.len() ==> (#[trigger] binds@[i].description) is Some,
        max_key_len(binds@) < usize::MAX,
    ensures
        r.0@ == "printf '\x1b[?25l"@ + bind_lines(binds@, max_key_len(binds@))
            + "'; sleep infinity"@,
        r.1 == binds@.len(),
        r.2 == max_line_len(binds@, max_key_len(binds@)),
{
    let ghost all = binds@;
    let mut longest: usize = 0;
    let mut i: usize = 0;
    while i < binds.len()
        invariant
            all == binds@,
            i <= all.len(),
            longest as int == max_key_len(all.take(i as int)),
        decreases all.len() - i,
    {
        proof {
            assert(all.take(i + 1).drop_last() =~= all.take(i as int));
            assert(all.take(i + 1).last() == all[i as int]);
        }
        let kl = binds[i].key.as_str().unicode_len();
        if kl > longest {
            longest = kl;
        }
        i += 1;
    }
    proof {
        assert(all.take(all.len() as int) =~= all);
    }
    let ghost width = max_key_len(all);
    let mut table = String::new();
    let mut widest: usize = 0;
    let mut i: usize = 0;
    while i < binds.len()
        invariant
            all == binds@,
            i <= all.len(),
            longest as int == width,
            width == max_key_len(all),
            width < usize::MAX,
            forall|k: int| 0 <= k < all.len() ==> (#[trigger] all[k].description) is Some,
            table@ == bind_lines(all.take(i as int), width),
            widest as int == max_line_len(all.take(i as int), width),
        decreases all.len() - i,
    {
        proof {
            reveal_strlit(" ");
            reveal_strlit("\n");
            assert(" "@ =~= seq![' ']);
            assert("\n"@ =~= seq!['\n']);
            assert(all.take(i + 1).drop_last() =~= all.take(i as int));
            assert(all.take(i + 1).last() == all[i as int]);
            lemma_max_key_le(all, i as int);
        }
        let b = &binds[i];
        let key_len = b.key.as_str().unicode_len();
        let mut line = String::from_str(b.key.as_str());
        let mut pad: usize = 0;
        let target: usize = longest - key_len + 1;
        while pad < target
            invariant
                line@ == all[i as int].key@ + spaces(pad as int),
                pad <= target,
            decreases target - pad,
        {
            line.append(" ");
            proof {
                assert(line@ =~= all[i as int].key@ + spaces(pad + 1));
            }
            pad += 1;
        }
        match &b.description {
            Some(d) => {
                line.append(d.as_str());
            },
            None => {},
        }
        proof {
            assert(line@ =~= bind_line(all[i as int], width));
        }
        let line_len = line.as_str().unicode_len();
        if line_len > widest {
            widest = line_len;
        }
        if i > 0 {
            table.append("\n");
        }
        table.append(line.as_str());
        proof {
            if i == 0 {
                assert(all.take(1int) =~= seq![all[0]]);
                assert(bind_lines(all.take(1int), width) == bind_line(all[0], width));
                assert(table@ =~= bind_lines(all.take(i + 1), width));
            } else {
                assert(table@ =~= bind_lines(all.take(i + 1), width));
            }
        }
        i += 1;
    }
    proof {
        assert(all.take(all.len() as int) =~= all);
    }
    let mut cmd = String::from_str("printf '\x1b[?25l");
    cmd.append(table.as_str());
    cmd.append("'; sleep infinity");
    proof {
        assert(cmd@ =~= "printf '\x1b[?25l"@ + bind_lines(all, width) + "'; sleep infinity"@);
    }
    (cmd, binds.len(), widest)
}

/// The argument list for the overlay panel process, sized to the bind table;
/// the process itself is spawned by the caller.
pub fn kitty_panel_args(lines: usize, columns: usize, cmd: String) -> (args: Vec<String>)
    ensures
        args.deep_view() =~= seq![
            "+kitten"@,
            "panel"@,
            "--edge"@,
            "center-sized"@,
            "--layer"@,
            "top"@,
            "--lines"@,
            dec_str(lines as nat),
            "--columns"@,
            dec_str(columns as nat),
            "--app-id"@,
            "homehelper-submap"@,
            "sh"@,
            "-c"@,
            cmd@,
        ],
{
    let mut args: Vec<String> = Vec::new();
    args.push(String::from_str("+kitten"));
    args.push(String::from_str("panel"));
    args.push(String::from_str("--edge"));
    args.push(String::from_str("center-sized"));
    args.push(String::from_str("--layer"));
    args.push(String::from_str("top"));
    args.push(String::from_str("--lines"));
    args.push(u64_to_string(lines as u64));
    args.push(String::from_str("--columns"));
    args.push(u64_to_string(columns as u64));
    args.push(String::from_str("--app-id"));
    args.push(String::from_str("homehelper-submap"));
    args.push(String::from_str("sh"));
    args.push(String::from_str("-c"));
    args.push(cmd);
    args
}

} // verus!
