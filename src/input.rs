use vstd::prelude::*;

use crate::error::PipelineError;

verus! {

/// Where the arguments of a witness computation come from. Decided once,
/// before any computation starts.
#[derive(Clone, Copy, Debug, PartialEq, Eq, Structural)]
pub enum InputSource {
    /// Decimal tokens given inline on the command line.
    Inline,
    /// Decimal tokens separated by spaces, read from standard input.
    StdinRaw,
    /// One structured value per declared input type, read from standard input.
    StdinAbi,
}

/// The source selected by the two flags, or `None` for the one combination
/// that is refused: ABI-typed input given inline.
pub open spec fn source_of(is_stdin: bool, is_abi: bool) -> Option<InputSource> {
    if is_stdin {
        if is_abi { Some(InputSource::StdinAbi) } else { Some(InputSource::StdinRaw) }
    } else {
        if is_abi { None } else { Some(InputSource::Inline) }
    }
}

/// Picks the input source from the `stdin` and `abi` flags. ABI input without
/// `stdin` is a usage error, never resolved by picking one of the two.
pub fn select_input_source(is_stdin: bool, is_abi: bool) -> (r: Result<InputSource, PipelineError>)
    ensures
        r is Ok <==> source_of(is_stdin, is_abi) is Some,
        r is Ok ==> Some(r->Ok_0) == source_of(is_stdin, is_abi),
        (is_abi && !is_stdin) <==> (r is Err && r->Err_0 is UnsupportedCombination),
{
    if is_stdin {
        if is_abi {
            Ok(InputSource::StdinAbi)
        } else {
            Ok(InputSource::StdinRaw)
        }
    } else if is_abi {
        Err(PipelineError::UnsupportedCombination)
    } else {
        Ok(InputSource::Inline)
    }
}

/// Whether witness computation reads standard input: always for structured
/// input, for raw input only when the program takes arguments, never for
/// inline arguments.
pub fn reads_stdin(source: InputSource, argument_count: usize) -> (r: bool)
    ensures
        r == (source is StdinAbi || (source is StdinRaw && argument_count != 0)),
{
    match source {
        InputSource::Inline => false,
        InputSource::StdinRaw => argument_count != 0,
        InputSource::StdinAbi => true,
    }
}

/// Checks that `found` flat inputs meet a program that declares `expected`
/// arguments.
pub fn check_arity(expected: usize, found: usize) -> (r: Result<(), PipelineError>)
    ensures
        r is Ok <==> found == expected,
        r is Err ==> r->Err_0 == (PipelineError::Arity { expected, found }),
{
    if found == expected {
        Ok(())
    } else {
        Err(PipelineError::Arity { expected, found })
    }
}

/// The text with every newline character removed.
pub open spec fn strip_newlines(s: Seq<char>) -> Seq<char>
    decreases s.len(),
{
    if s.len() == 0 {
        s
    } else if s.last() == '\n' {
        strip_newlines(s.drop_last())
    } else {
        strip_newlines(s.drop_last()).push(s.last())
    }
}

/// The pieces of the text between single space characters, empty pieces
/// included; the empty text is one empty piece.
pub open spec fn split_spaces(s: Seq<char>) -> Seq<Seq<char>>
    decreases s.len(),
{
    if s.len() == 0 {
        seq![Seq::empty()]
    } else {
        let r = split_spaces(s.drop_last());
        if s.last() == ' ' {
            r.push(Seq::empty())
        } else {
            r.update(r.len() - 1, r.last().push(s.last()))
        }
    }
}

proof fn lemma_split_spaces_nonempty(s: Seq<char>)
    ensures
        split_spaces(s).len() >= 1,
    decreases s.len(),
{
    if s.len() > 0 {
        lemma_split_spaces_nonempty(s.drop_last());
    }
}

proof fn lemma_raw_tokens_step(pre: Seq<char>, c: char)
    ensures
        raw_tokens(pre).len() >= 1,
        c == '\n' ==> raw_tokens(pre.push(c)) == raw_tokens(pre),
        c == ' ' ==> raw_tokens(pre.push(c)) == raw_tokens(pre).push(Seq::empty()),
        c != '\n' && c != ' ' ==> raw_tokens(pre.push(c)) == raw_tokens(pre).update(
            raw_tokens(pre).len() - 1,
            raw_tokens(pre).last().push(c),
        ),
{
    let next = pre.push(c);
    assert(next.drop_last() =~= pre);
    lemma_split_spaces_nonempty(strip_newlines(pre));
    if c != '\n' {
        let t = strip_newlines(next);
        assert(t == strip_newlines(pre).push(c));
        assert(t.drop_last() =~= strip_newlines(pre));
    }
}

/// The tokens of raw standard-input text: newlines dropped, then split at
/// each space.
pub open spec fn raw_tokens(s: Seq<char>) -> Seq<Seq<char>> {
    split_spaces(strip_newlines(s))
}

/// Splits raw standard-input text into argument tokens: newline characters
/// are dropped and the rest is cut at every single space.
pub fn tokenize_raw(input: &str) -> (r: Vec<String>)
    ensures
        r@.len() == raw_tokens(input@).len(),
        forall|i: int| 0 <= i < r@.len() ==> #[trigger] r@[i]@ == raw_tokens(input@)[i],
{
    let n = input.unicode_len();
    let mut out: Vec<String> = Vec::new();
    let mut cur = String::new();
    let mut i: usize = 0;
    proof {
        assert(input@.subrange(0, 0) =~= Seq::<char>::empty());
    }
    while i < n
        invariant
            n == input@.len(),
            i <= n,
            out@.len() + 1 == raw_tokens(input@.subrange(0, i as int)).len(),
            forall|j: int| 0 <= j < out@.len() ==>
                #[trigger] out@[j]@ == raw_tokens(input@.subrange(0, i as int))[j],
            cur@ == raw_tokens(input@.subrange(0, i as int)).last(),
        decreases n - i,
    {
        let c = input.get_char(i);
        let ghost old_out = out@;
        let ghost pre = input@.subrange(0, i as int);
        let ghost next = input@.subrange(0, i + 1);
        proof {
            assert(next =~= pre.push(c));
            lemma_raw_tokens_step(pre, c);
        }
        if c == ' ' {
            out.push(cur);
            cur = String::new();
            proof {
                assert forall|j: int| 0 <= j < out@.len() implies #[trigger] out@[j]@
                    == raw_tokens(next)[j] by {
                    if j < out@.len() - 1 {
                        assert(out@[j] == old_out[j]);
                    }
                }
            }
        } else if c != '\n' {
            let piece = input.substring_char(i, i + 1);
            proof {
                assert(piece@ =~= seq![c]);
            }
            cur = cur.concat(piece);
            proof {
                assert(cur@ =~= raw_tokens(pre).last().push(c));
            }
        }
        i = i + 1;
        proof {
            assert(input@.subrange(0, i as int) == next);
        }
    }
    proof {
        assert(input@.subrange(0, n as int) =~= input@);
    }
    out.push(cur);
    out
}

/// The argument tokens of raw standard-input text for a program that takes
/// `argument_count` arguments: none when it takes none (the text is not
/// looked at), else the tokens of `tokenize_raw`.
pub fn stdin_raw_tokens(input: &str, argument_count: usize) -> (r: Vec<String>)
    ensures
        argument_count == 0 ==> r@.len() == 0,
        argument_count != 0 ==> r@.len() == raw_tokens(input@).len(),
        argument_count != 0 ==> forall|i: int|
            0 <= i < r@.len() ==> #[trigger] r@[i]@ == raw_tokens(input@)[i],
{
    if argument_count == 0 {
        Vec::new()
    } else {
        tokenize_raw(input)
    }
}

} // verus!
