use vstd::prelude::*;

verus! {

broadcast use vstd::string::group_string_axioms;

/// The shell script that runs `cmds` in order: each command followed by `;`,
/// consecutive commands separated by one space.
pub open spec fn joined_commands(cmds: Seq<Seq<char>>) -> Seq<char>
    decreases cmds.len(),
{
    if cmds.len() == 0 {
        Seq::empty()
    } else {
        let prefix = joined_commands(cmds.drop_last());
        let sep = if cmds.len() > 1 { seq![' '] } else { Seq::empty() };
        prefix + sep + cmds.last() + seq![';']
    }
}

/// Joins shell commands into one script body: `a; b; c;`.
pub fn correct_args(args_to_correct: Vec<String>) -> (r: Option<String>)
    ensures
        r matches Some(s) && s@ == joined_commands(args_to_correct.deep_view()),
{
    let mut sb = String::new();
    let n = args_to_correct.len();
    let ghost cmds = args_to_correct.deep_view();
    let mut idx: usize = 0;
    proof {
        assert(cmds.take(0) =~= Seq::<Seq<char>>::empty());
    }
    while idx < n
        invariant
            n == args_to_correct.len(),
            cmds == args_to_correct.deep_view(),
            0 <= idx <= n,
            sb@ == joined_commands(cmds.take(idx as int)),
        decreases n - idx,
    {
        let ghost before = sb@;
        if idx > 0 {
            sb.append(" ");
        }
        let ghost mid = sb@;
        sb.append(args_to_correct[idx].as_str());
        sb.append(";");
        proof {
            let t = cmds.take(idx as int + 1);
            assert(t.drop_last() =~= cmds.take(idx as int));
            assert(args_to_correct@[idx as int]@ == cmds[idx as int]);
            assert(t.last() == cmds[idx as int]);
            reveal_strlit(" ");
            reveal_strlit(";");
            assert(" "@ =~= seq![' ']);
            assert(";"@ =~= seq![';']);
            if idx > 0 {
                assert(mid == before + seq![' ']);
            } else {
                assert(mid == before + Seq::<char>::empty());
            }
            assert(sb@ =~= before + (if t.len() > 1 { seq![' '] } else { Seq::<char>::empty() })
                + t.last() + seq![';']);
        }
        idx = idx + 1;
    }
    proof {
        assert(cmds.take(n as int) =~= cmds);
    }
    Some(sb)
}


/// Three commands join as `a; b; c;`.
pub proof fn lemma_three_commands(a: Seq<char>, b: Seq<char>, c: Seq<char>)
    ensures
        joined_commands(seq![a, b, c]) == a + "; "@ + b + "; "@ + c + ";"@,
{
    reveal_strlit("; ");
    reveal_strlit(";");
    let s3 = seq![a, b, c];
    assert(s3.drop_last() =~= seq![a, b]);
    assert(seq![a, b].drop_last() =~= seq![a]);
    assert(seq![a].drop_last() =~= Seq::<Seq<char>>::empty());
    assert(joined_commands(Seq::<Seq<char>>::empty()) == Seq::<char>::empty());
    assert(seq![a].last() == a);
    assert(joined_commands(seq![a]) =~= a + seq![';']);
    assert(seq![a, b].last() == b);
    assert(s3.last() == c);
    assert(joined_commands(seq![a, b]) =~= a + seq![';'] + seq![' '] + b + seq![';']);
    assert(joined_commands(s3) =~= a + "; "@ + b + "; "@ + c + ";"@);
}

/// The arguments of the step's shell (`sh -c <script>`): `-c`, then the
/// joined commands.
pub open spec fn shell_arguments(cmds: Seq<Seq<char>>) -> Seq<Seq<char>> {
    seq!["-c"@, joined_commands(cmds)]
}

/// The arguments that make `sh` run `commands` in order.
pub fn shell_invocation(commands: Vec<String>) -> (r: Vec<String>)
    ensures
        r.deep_view() == shell_arguments(commands.deep_view()),
{
    let script = match correct_args(commands) {
        Some(s) => s,
        None => String::new(),
    };
    let mut argv: Vec<String> = Vec::new();
    argv.push(String::from_str("-c"));
    argv.push(script);
    proof {
        assert(argv.deep_view() =~= shell_arguments(commands.deep_view()));
    }
    argv
}


/// A copy of a list of strings.
pub fn copy_strings(v: &Vec<String>) -> (r: Vec<String>)
    ensures
        r@ == v@,
{
    let mut out: Vec<String> = Vec::new();
    let mut i: usize = 0;
    while i < v.len()
        invariant
            0 <= i <= v.len(),
            out@ == v@.take(i as int),
        decreases v.len() - i,
    {
        out.push(v[i].clone());
        proof {
            assert(out@ =~= v@.take(i + 1));
        }
        i = i + 1;
    }
    proof {
        assert(v@.take(v.len() as int) =~= v@);
    }
    out
}

} // verus!
