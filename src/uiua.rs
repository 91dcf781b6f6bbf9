use vstd::prelude::*;
use vstd::string::StringExecFns;

verus! {

/// The values of a stack, each followed by a line break.
pub open spec fn stack_text(values: Seq<Seq<char>>) -> Seq<char>
    decreases values.len(),
{
    if values.len() == 0 {
        Seq::empty()
    } else {
        stack_text(values.drop_last()) + values.last() + seq!['\n']
    }
}

/// The text of an interpreter's stack, from the values as the interpreter
/// renders them: one value per line, bottom first.
pub fn format_stack(stack: &[String]) -> (r: String)
    ensures
        r@ == stack_text(stack@.map_values(|v: String| v@)),
{
    let ghost values = stack@.map_values(|v: String| v@);
    let mut text = String::new();
    let mut i: usize = 0;
    while i < stack.len()
        invariant
            i <= stack@.len(),
            values == stack@.map_values(|v: String| v@),
            text@ == stack_text(values.subrange(0, i as int)),
        decreases stack@.len() - i,
    {
        let ghost before = text@;
        text.append(stack[i].as_str());
        text.append("\n");
        proof {
            reveal_strlit("\n");
        }
        let ghost next = values.subrange(0, i + 1);
        assert(next.drop_last() =~= values.subrange(0, i as int));
        assert(next.last() == stack@[i as int]@);
        assert(text@ =~= before + next.last() + seq!['\n']);
        i = i + 1;
    }
    assert(values.subrange(0, stack@.len() as int) =~= values);
    text
}

} // verus!
