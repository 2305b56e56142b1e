//! Decoding input that arrives in chunks.

use vstd::prelude::*;
use crate::command::{Command, CommandView};
use crate::error::DecodeError;
use crate::structs::XY;
use crate::parser::{
    batch, batch_at, boolean_at, command_at, command_level_at, commands_at, corners_at,
    ega_color_at, ega_colors_at, palette_color_at, symbol_at, wired, BATCH_MARK,
    fields_at, lemma_command_advances, lemma_commands_bound, lemma_ega_colors_bound,
    lemma_level_digits_bound,
    level_digits, meganum_at, views, COMMAND_MARK, SYM_COLOR, SYM_GOTOXY, SYM_ONE_PALETTE,
    SYM_SET_PALETTE, SYM_TEXT_WINDOW, SYM_VIEWPORT, SYM_WRITE_MODE,
};

verus! {

/// A decoder that keeps what it was fed until a whole batch has arrived.
#[derive(Debug)]
pub struct StreamDecoder {
    buffer: Vec<u8>,
}

impl View for StreamDecoder {
    type V = Seq<u8>;

    /// The bytes that were fed and not yet decoded.
    closed spec fn view(&self) -> Seq<u8> {
        self.buffer@
    }
}

/// Whether a call that was handed `chunk`, took the pending bytes from
/// `before` to `after` and returned `r` did its work. The pending bytes
/// and the chunk are decoded as one input. Where a batch decodes, its
/// commands are returned with the bytes that follow it, and nothing stays
/// pending. Where the input ends inside a token, all of it stays pending.
/// Any other error is returned and the input is dropped.
pub open spec fn fed(
    before: Seq<u8>,
    chunk: Seq<u8>,
    after: Seq<u8>,
    r: Result<(Vec<Command>, Vec<u8>), DecodeError>,
) -> bool {
    let all = before + chunk;
    match batch_at(all) {
        Ok((cmds, next)) => {
            &&& r is Ok
            &&& views(r->Ok_0.0@) == cmds
            &&& r->Ok_0.1@ == all.skip(next)
            &&& after == Seq::<u8>::empty()
        },
        Err(e) => {
            &&& r is Err
            &&& r->Err_0 == e
            &&& after == if e == DecodeError::NeedMoreInput {
                all
            } else {
                Seq::<u8>::empty()
            }
        },
    }
}

/// Puts the bytes of `chunk` after those of `buffer`.
fn append_bytes(buffer: &mut Vec<u8>, chunk: &[u8])
    ensures
        final(buffer)@ == old(buffer)@ + chunk@,
{
    let mut i: usize = 0;
    while i < chunk.len()
        invariant
            i <= chunk.len(),
            buffer@ == old(buffer)@ + chunk@.take(i as int),
        decreases chunk.len() - i,
    {
        buffer.push(chunk[i]);
        proof {
            assert(chunk@.take(i + 1) =~= chunk@.take(i as int).push(chunk@[i as int]));
            assert(buffer@ =~= old(buffer)@ + chunk@.take(i + 1));
        }
        i = i + 1;
    }
    proof {
        assert(chunk@.take(chunk@.len() as int) =~= chunk@);
    }
}

impl StreamDecoder {
    /// A decoder with nothing pending.
    pub fn new() -> (d: Self)
        ensures
            d@ == Seq::<u8>::empty(),
    {
        StreamDecoder { buffer: Vec::new() }
    }

    /// How many bytes are pending.
    pub fn pending(&self) -> (n: usize)
        ensures
            n == self@.len(),
    {
        self.buffer.len()
    }

    /// Takes the next chunk of input and decodes the batch if it is
    /// complete.
    pub fn feed(&mut self, chunk: &[u8]) -> (r: Result<(Vec<Command>, Vec<u8>), DecodeError>)
        ensures
            fed(old(self)@, chunk@, final(self)@, r),
    {
        append_bytes(&mut self.buffer, chunk);
        proof {
            lemma_commands_bound(self.buffer@, 1);
        }
        match batch(self.buffer.as_slice()) {
            Ok((cmds, next)) => {
                let rest = self.buffer.split_off(next);
                self.buffer.clear();
                Ok((cmds, rest))
            },
            Err(DecodeError::NeedMoreInput) => Err(DecodeError::NeedMoreInput),
            Err(e) => {
                self.buffer.clear();
                Err(e)
            },
        }
    }
}

/// A numeral that is cut short needs more input; one that is not is read
/// as before.
pub proof fn lemma_numeral_cut(s: Seq<u8>, pos: int, k: int)
    requires
        0 <= k <= s.len(),
        meganum_at(s, pos) is Ok,
    ensures
        meganum_at(s.take(k), pos) == if k < pos + 2 {
            Err(DecodeError::NeedMoreInput)
        } else {
            meganum_at(s, pos)
        },
{
}

/// A run of colours that is cut short needs more input; one that is not is
/// read as before.
pub proof fn lemma_colors_cut(s: Seq<u8>, pos: int, count: nat, k: int)
    requires
        0 <= pos <= k <= s.len(),
        ega_colors_at(s, pos, count) is Ok,
    ensures
        ega_colors_at(s.take(k), pos, count) == if k < ega_colors_at(s, pos, count)->Ok_0.1 {
            Err(DecodeError::NeedMoreInput)
        } else {
            ega_colors_at(s, pos, count)
        },
    decreases count,
{
    if count > 0 {
        lemma_numeral_cut(s, pos, k);
        lemma_ega_colors_bound(s, pos + 2, (count - 1) as nat);
        if k >= pos + 2 {
            lemma_colors_cut(s, pos + 2, (count - 1) as nat, k);
        }
    }
}

/// Two coordinate pairs that are cut short need more input; where they
/// are not, they are read as before.
pub proof fn lemma_corners_cut(s: Seq<u8>, pos: int, k: int)
    requires
        0 <= k <= s.len(),
        corners_at(s, pos) is Ok,
    ensures
        corners_at(s.take(k), pos) == if k < pos + 8 {
            Err(DecodeError::NeedMoreInput)
        } else {
            corners_at(s, pos)
        },
{
    lemma_numeral_cut(s, pos, k);
    lemma_numeral_cut(s, pos + 2, k);
    lemma_numeral_cut(s, pos + 4, k);
    lemma_numeral_cut(s, pos + 6, k);
}

/// Every proper prefix of a command that decodes needs more input, and
/// what comes after the command does not matter to it. The unknown command
/// is left out: it takes whatever input there is.
pub proof fn lemma_command_cut(s: Seq<u8>, pos: int, k: int)
    requires
        0 <= k <= s.len(),
        command_at(s, pos) is Ok,
        command_at(s, pos)->Ok_0.0 != CommandView::Unknown,
    ensures
        command_at(s.take(k), pos) == if k < command_at(s, pos)->Ok_0.1 {
            Err(DecodeError::NeedMoreInput)
        } else {
            command_at(s, pos)
        },
{
    lemma_command_advances(s, pos);
    let t = s.take(k);
    let at = pos + 2;
    lemma_level_digits_bound(s, pos + 1, 9);
    assert(command_level_at(s, pos + 1) == Ok::<_, DecodeError>((0usize, pos + 1)));
    if k <= pos {
        assert(command_at(t, pos) == Err::<(CommandView, int), _>(DecodeError::NeedMoreInput));
    } else if k == pos + 1 {
        assert(level_digits(t, pos + 1, 9) == 0);
        assert(command_at(t, pos) == Err::<(CommandView, int), _>(DecodeError::NeedMoreInput));
    } else {
        assert(t[pos] == s[pos]);
        assert(t[pos + 1] == s[pos + 1]);
        assert(level_digits(t, pos + 1, 9) == 0);
        assert(command_level_at(t, pos + 1) == Ok::<_, DecodeError>((0usize, pos + 1)));
        let sym = s[pos + 1];
        assert(command_at(s, pos) == fields_at(s, at, 0, sym));
        assert(command_at(t, pos) == fields_at(t, at, 0, sym));
        if sym == SYM_SET_PALETTE {
            lemma_ega_colors_bound(s, at, 16);
            lemma_colors_cut(s, at, 16, k);
        } else if sym == SYM_TEXT_WINDOW {
            lemma_corners_cut(s, at, k);
            if k > at + 8 {
                assert(t[at + 8] == s[at + 8]);
            }
            if k > at + 9 {
                assert(t[at + 9] == s[at + 9]);
            }
        } else if sym == SYM_VIEWPORT {
            lemma_corners_cut(s, at, k);
        } else if sym == SYM_GOTOXY {
            lemma_numeral_cut(s, at, k);
            lemma_numeral_cut(s, at + 2, k);
        } else if sym == SYM_ONE_PALETTE {
            lemma_numeral_cut(s, at, k);
            lemma_numeral_cut(s, at + 2, k);
        } else if sym == SYM_COLOR || sym == SYM_WRITE_MODE {
            lemma_numeral_cut(s, at, k);
        }
    }
}

/// Whether no command of a run is the unknown command.
pub open spec fn all_known(cmds: Seq<CommandView>) -> bool {
    forall|i: int| 0 <= i < cmds.len() ==> #[trigger] cmds[i] != CommandView::Unknown
}

/// What decoding the first `k` bytes of an input may give, where the whole
/// input decodes to the commands `whole`: either more input is needed, or
/// the cut falls exactly behind a command and the commands before it are
/// decoded, in order and without the ones behind it.
pub open spec fn cut_result(
    whole: Seq<CommandView>,
    k: int,
    r: Result<(Seq<CommandView>, int), DecodeError>,
) -> bool {
    match r {
        Err(e) => e == DecodeError::NeedMoreInput,
        Ok((front, end)) => {
            &&& end == k
            &&& 1 <= front.len() < whole.len()
            &&& front == whole.take(front.len() as int)
        },
    }
}

/// Cutting a run of commands short never gives a wrong result: see
/// [`cut_result`].
pub proof fn lemma_commands_cut(s: Seq<u8>, pos: int, k: int)
    requires
        commands_at(s, pos) is Ok,
        all_known(commands_at(s, pos)->Ok_0.0),
        0 <= k < commands_at(s, pos)->Ok_0.1,
    ensures
        cut_result(commands_at(s, pos)->Ok_0.0, k, commands_at(s.take(k), pos)),
    decreases s.len() - pos,
{
    let t = s.take(k);
    let cmds = commands_at(s, pos)->Ok_0.0;
    let c = command_at(s, pos)->Ok_0.0;
    let n1 = command_at(s, pos)->Ok_0.1;
    lemma_command_advances(s, pos);
    lemma_commands_bound(s, pos);
    assert(cmds[0] == c);
    lemma_command_cut(s, pos, k);
    if k >= n1 {
        assert(n1 < s.len() && s[n1] == COMMAND_MARK);
        let rest = commands_at(s, n1)->Ok_0.0;
        lemma_commands_bound(s, n1);
        assert(cmds =~= seq![c] + rest);
        assert forall|i: int| 0 <= i < rest.len() implies #[trigger] rest[i]
            != CommandView::Unknown by {
            assert(rest[i] == cmds[i + 1]);
        }
        if n1 < k {
            assert(t[n1] == s[n1]);
            lemma_commands_cut(s, n1, k);
            match commands_at(t, n1) {
                Err(_) => {},
                Ok((front, end)) => {
                    assert(seq![c] + front =~= cmds.take(front.len() as int + 1));
                },
            }
        } else {
            assert(seq![c] =~= cmds.take(1));
        }
    }
}

/// Split delivery of a batch: where a whole input decodes to commands none
/// of which is unknown, its first `k` bytes alone either need more input
/// or, if the cut falls exactly behind a command, give the commands before
/// the cut. A cut inside a token, or anywhere in a batch of one command,
/// therefore needs more input.
pub proof fn lemma_batch_cut(s: Seq<u8>, k: int)
    requires
        batch_at(s) is Ok,
        all_known(batch_at(s)->Ok_0.0),
        0 <= k < batch_at(s)->Ok_0.1,
    ensures
        cut_result(batch_at(s)->Ok_0.0, k, batch_at(s.take(k))),
        batch_at(s)->Ok_0.0.len() == 1 ==> batch_at(s.take(k)) == Err::<
            (Seq<CommandView>, int),
            _,
        >(DecodeError::NeedMoreInput),
{
    lemma_commands_bound(s, 1);
    if k >= 1 {
        assert(s.take(k)[0] == s[0]);
        lemma_commands_cut(s, 1, k);
    }
}

/// Whether two results of feeding hold the same commands and the same
/// bytes behind them, or the same error.
pub open spec fn same_outcome(
    a: Result<(Vec<Command>, Vec<u8>), DecodeError>,
    b: Result<(Vec<Command>, Vec<u8>), DecodeError>,
) -> bool {
    match (a, b) {
        (Ok(x), Ok(y)) => views(x.0@) == views(y.0@) && x.1@ == y.1@,
        (Err(e), Err(f)) => e == f,
        _ => false,
    }
}

/// Delivery in two chunks: where the first chunk alone needs more input,
/// feeding it returns just that and keeps it, and feeding the second chunk
/// then gives what feeding both at once gives a decoder with nothing
/// pending.
pub proof fn lemma_feed_in_two(
    first: Seq<u8>,
    second: Seq<u8>,
    between: Seq<u8>,
    after_split: Seq<u8>,
    after_whole: Seq<u8>,
    r1: Result<(Vec<Command>, Vec<u8>), DecodeError>,
    r2: Result<(Vec<Command>, Vec<u8>), DecodeError>,
    whole: Result<(Vec<Command>, Vec<u8>), DecodeError>,
)
    requires
        batch_at(first) == Err::<(Seq<CommandView>, int), _>(DecodeError::NeedMoreInput),
        fed(Seq::empty(), first, between, r1),
        fed(between, second, after_split, r2),
        fed(Seq::empty(), first + second, after_whole, whole),
    ensures
        r1 == Err::<(Vec<Command>, Vec<u8>), _>(DecodeError::NeedMoreInput),
        between == first,
        same_outcome(r2, whole),
        after_split == after_whole,
{
    assert(Seq::<u8>::empty() + first =~= first);
    assert(Seq::<u8>::empty() + (first + second) =~= first + second);
}

/// A level that is followed by another character, or has all its nine
/// digits, reads the same whatever is added behind the input.
pub proof fn lemma_level_extend(s: Seq<u8>, more: Seq<u8>, pos: int, limit: nat)
    requires
        0 <= pos,
        level_digits(s, pos, limit) == limit || pos + level_digits(s, pos, limit) < s.len(),
    ensures
        level_digits(s + more, pos, limit) == level_digits(s, pos, limit),
    decreases limit,
{
    if limit > 0 && pos < s.len() {
        assert((s + more)[pos] == s[pos]);
        if 0x30 <= s[pos] <= 0x39 {
            lemma_level_extend(s, more, pos + 1, (limit - 1) as nat);
        }
    }
}

/// A numeral that was read, or found invalid, stays so whatever is added
/// behind the input.
pub proof fn lemma_numeral_extend(s: Seq<u8>, more: Seq<u8>, pos: int)
    requires
        meganum_at(s, pos) != Err::<(u32, int), _>(DecodeError::NeedMoreInput),
    ensures
        meganum_at(s + more, pos) == meganum_at(s, pos),
{
    assert((s + more)[pos] == s[pos]);
    if pos + 1 < s.len() {
        assert((s + more)[pos + 1] == s[pos + 1]);
    }
}

/// A run of colours that was read, or found invalid, stays so whatever is
/// added behind the input.
pub proof fn lemma_colors_extend(s: Seq<u8>, more: Seq<u8>, pos: int, count: nat)
    requires
        ega_colors_at(s, pos, count) != Err::<(Seq<nat>, int), _>(DecodeError::NeedMoreInput),
    ensures
        ega_colors_at(s + more, pos, count) == ega_colors_at(s, pos, count),
    decreases count,
{
    if count > 0 {
        lemma_numeral_extend(s, more, pos);
        if ega_color_at(s, pos) is Ok {
            lemma_colors_extend(s, more, pos + 2, (count - 1) as nat);
        }
    }
}

/// A command that was read, or found invalid, stays so whatever is added
/// behind the input; only the unknown command grows with the input.
pub proof fn lemma_command_extend(s: Seq<u8>, more: Seq<u8>, pos: int)
    requires
        command_at(s, pos) != Err::<(CommandView, int), _>(DecodeError::NeedMoreInput),
    ensures
        command_at(s + more, pos) == match command_at(s, pos) {
            Ok((c, next)) => if c == CommandView::Unknown {
                Ok((c, (s + more).len() as int))
            } else {
                Ok((c, next))
            },
            Err(e) => Err(e),
        },
{
    let t = s + more;
    assert(0 <= pos < s.len());
    assert(t[pos] == s[pos]);
    if s[pos] == COMMAND_MARK {
        lemma_level_digits_bound(s, pos + 1, 9);
        assert(command_level_at(s, pos + 1) is Ok);
        lemma_level_extend(s, more, pos + 1, 9);
        let level = command_level_at(s, pos + 1)->Ok_0.0;
        let after_level = command_level_at(s, pos + 1)->Ok_0.1;
        assert(command_level_at(t, pos + 1) == command_level_at(s, pos + 1));
        assert(after_level < s.len());
        assert(t[after_level] == s[after_level]);
        assert(symbol_at(t, after_level) == symbol_at(s, after_level));
        let sym = s[after_level];
        let at = after_level + 1;
        if symbol_at(s, after_level) is Ok && wired(level, sym) {
            assert(command_at(s, pos) == fields_at(s, at, 0, sym));
            assert(command_at(t, pos) == fields_at(t, at, 0, sym));
            if sym == SYM_SET_PALETTE {
                lemma_colors_extend(s, more, at, 16);
            } else if sym == SYM_TEXT_WINDOW {
                lemma_corners_extend(s, more, at);
                if corners_at(s, at) is Ok {
                    assert(t[at + 8] == s[at + 8]);
                    if boolean_at(s, at + 8) is Ok {
                        assert(t[at + 9] == s[at + 9]);
                    }
                }
            } else if sym == SYM_VIEWPORT {
                lemma_corners_extend(s, more, at);
            } else if sym == SYM_GOTOXY {
                lemma_numeral_extend(s, more, at);
                if meganum_at(s, at) is Ok {
                    lemma_numeral_extend(s, more, at + 2);
                }
            } else if sym == SYM_ONE_PALETTE {
                lemma_numeral_extend(s, more, at);
                if palette_color_at(s, at) is Ok {
                    lemma_numeral_extend(s, more, at + 2);
                }
            } else if sym == SYM_COLOR || sym == SYM_WRITE_MODE {
                lemma_numeral_extend(s, more, at);
            }
        }
    }
}

/// Two coordinate pairs that were read, or found invalid, stay so whatever
/// is added behind the input.
pub proof fn lemma_corners_extend(s: Seq<u8>, more: Seq<u8>, pos: int)
    requires
        corners_at(s, pos) != Err::<((XY, XY), int), _>(DecodeError::NeedMoreInput),
    ensures
        corners_at(s + more, pos) == corners_at(s, pos),
{
    lemma_numeral_extend(s, more, pos);
    if meganum_at(s, pos) is Ok {
        lemma_numeral_extend(s, more, pos + 2);
        if meganum_at(s, pos + 2) is Ok {
            lemma_numeral_extend(s, more, pos + 4);
            if meganum_at(s, pos + 4) is Ok {
                lemma_numeral_extend(s, more, pos + 6);
            }
        }
    }
}

/// A run of commands that was found invalid stays so, with the same error,
/// whatever is added behind the input.
pub proof fn lemma_commands_hard_error(s: Seq<u8>, more: Seq<u8>, pos: int)
    requires
        commands_at(s, pos) is Err,
        commands_at(s, pos)->Err_0 != DecodeError::NeedMoreInput,
    ensures
        commands_at(s + more, pos) == commands_at(s, pos),
    decreases s.len() - pos,
{
    let t = s + more;
    lemma_command_advances(s, pos);
    lemma_command_extend(s, more, pos);
    match command_at(s, pos) {
        Err(_) => {},
        Ok((c, next)) => {
            assert(next < s.len() && s[next] == COMMAND_MARK);
            assert(t[next] == s[next]);
            lemma_commands_hard_error(s, more, next);
        },
    }
}

/// What is definitely invalid stays invalid: a batch that fails with an
/// error other than the need for more input fails with the same error
/// whatever bytes arrive after it.
pub proof fn lemma_hard_error_is_final(s: Seq<u8>, more: Seq<u8>)
    requires
        batch_at(s) is Err,
        batch_at(s)->Err_0 != DecodeError::NeedMoreInput,
    ensures
        batch_at(s + more) == batch_at(s),
{
    assert((s + more)[0] == s[0]);
    if s[0] == BATCH_MARK {
        lemma_commands_hard_error(s, more, 1);
    }
}

} // verus!
