//! A command line: a program and its arguments.
use vstd::prelude::*;
use crate::text::join_words;

verus! {

/// One program run with its arguments.
#[derive(Clone, Debug)]
pub struct CommandSpec {
    pub program: String,
    pub args: Vec<String>,
}

/// A command as text: the program, then the arguments.
pub type CommandView = (Seq<char>, Seq<Seq<char>>);

impl View for CommandSpec {
    type V = CommandView;

    open spec fn view(&self) -> CommandView {
        (self.program@, self.args@.map_values(|a: String| a@))
    }
}

/// The command that runs `program` with `args`.
pub open spec fn command_of(program: &str, args: Seq<&str>) -> CommandView {
    (program@, args.map_values(|a: &str| a@))
}

/// The command line as one string: program and arguments separated by spaces.
pub open spec fn command_line(c: CommandView) -> Seq<char> {
    join_words(seq![c.0] + c.1)
}

impl CommandSpec {
    /// The command that runs `program` with `args`.
    pub fn new(program: &str, args: &[&str]) -> (r: CommandSpec)
        ensures
            r@ == command_of(program, args@),
    {
        let mut out: Vec<String> = Vec::new();
        let mut i: usize = 0;
        while i < args.len()
            invariant
                i <= args@.len(),
                out@.len() == i,
                forall|j: int| 0 <= j < i ==> #[trigger] out@[j]@ == args@[j]@,
            decreases args@.len() - i,
        {
            out.push(String::from_str(args[i]));
            i = i + 1;
        }
        let r = CommandSpec { program: String::from_str(program), args: out };
        proof {
            assert(r.args@.map_values(|a: String| a@) =~= args@.map_values(|a: &str| a@));
        }
        r
    }

    /// The command line as one string: program and arguments separated by spaces.
    pub fn display(&self) -> (r: String)
        ensures
            r@ == command_line(self@),
    {
        let mut r = self.program.clone();
        let ghost words = seq![self.program@] + self.args@.map_values(|a: String| a@);
        let mut i: usize = 0;
        proof {
            assert(words.take(1) =~= seq![self.program@]);
        }
        while i < self.args.len()
            invariant
                i <= self.args@.len(),
                words == seq![self.program@] + self.args@.map_values(|a: String| a@),
                r@ == join_words(words.take(i + 1)),
            decreases self.args@.len() - i,
        {
            r.append(" ");
            r.append(self.args[i].as_str());
            proof {
                reveal_strlit(" ");
                let t = words.take(i + 2);
                assert(join_words(t) == join_words(t.drop_last()) + seq![' '] + t.last());
                assert(t.drop_last() =~= words.take(i + 1));
                assert(t.last() == self.args@[i as int]@);
            }
            i = i + 1;
        }
        proof {
            assert(words.take(self.args@.len() + 1 as int) =~= words);
        }
        r
    }
}

/// Whether two argument lists hold the same strings.
fn same_args(a: &Vec<String>, b: &Vec<String>) -> (r: bool)
    ensures
        r == (a@.map_values(|s: String| s@) == b@.map_values(|s: String| s@)),
{
    if a.len() != b.len() {
        proof {
            assert(a@.map_values(|s: String| s@).len() != b@.map_values(|s: String| s@).len());
        }
        return false;
    }
    let mut i: usize = 0;
    while i < a.len()
        invariant
            i <= a@.len(),
            a@.len() == b@.len(),
            forall|j: int| 0 <= j < i ==> #[trigger] a@[j]@ == b@[j]@,
        decreases a@.len() - i,
    {
        if a[i] != b[i] {
            proof {
                assert(a@.map_values(|s: String| s@)[i as int] != b@.map_values(|s: String| s@)[i as int]);
            }
            return false;
        }
        i = i + 1;
    }
    proof {
        assert(a@.map_values(|s: String| s@) =~= b@.map_values(|s: String| s@));
    }
    true
}

impl PartialEq for CommandSpec {
    fn eq(&self, other: &Self) -> (r: bool) {
        self.program == other.program && same_args(&self.args, &other.args)
    }
}

impl Eq for CommandSpec {}

impl vstd::std_specs::cmp::PartialEqSpecImpl for CommandSpec {
    open spec fn obeys_eq_spec() -> bool {
        true
    }

    open spec fn eq_spec(&self, other: &CommandSpec) -> bool {
        self@ == other@
    }
}

} // verus!
