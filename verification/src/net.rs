//! The text protocol for world commands: each command has one line form,
//! such as `Move <id> <Direction>` or `UpdateBoxArea <Position> <Content>`,
//! built from space-separated words. Printing and parsing are specified
//! against each other over sequences of characters.

use vstd::prelude::*;
use vstd::string::StrSliceExecFns;
use vstd::string::StringExecFns;
use crate::world::{BoxAreaContent, BoxAreaPosition, Command, Direction};

verus! {

broadcast use vstd::string::group_string_axioms;

/// A decimal digit.
pub open spec fn is_dec_digit(c: char) -> bool {
    '0' <= c && c <= '9'
}

pub open spec fn all_dec_digits(s: Seq<char>) -> bool {
    forall|i: int| 0 <= i < s.len() ==> is_dec_digit(s[i])
}

/// The numeric value of one digit character.
pub open spec fn digit_of(c: char) -> int {
    c as int - 48
}

/// The value of a digit string, most significant digit first.
pub open spec fn dec_val(s: Seq<char>) -> int
    decreases s.len(),
{
    if s.len() == 0 {
        0
    } else {
        dec_val(s.drop_last()) * 10 + digit_of(s.last())
    }
}

/// What parsing an unsigned number means: at least one character, digits
/// only, and a value that fits.
pub open spec fn spec_parse_u32(s: Seq<char>) -> Option<u32> {
    if s.len() > 0 && all_dec_digits(s) && dec_val(s) <= u32::MAX {
        Some(dec_val(s) as u32)
    } else {
        None
    }
}

/// The digit character of one value below ten.
pub open spec fn spec_digit_char(d: int) -> char {
    if d == 0 {
        '0'
    } else if d == 1 {
        '1'
    } else if d == 2 {
        '2'
    } else if d == 3 {
        '3'
    } else if d == 4 {
        '4'
    } else if d == 5 {
        '5'
    } else if d == 6 {
        '6'
    } else if d == 7 {
        '7'
    } else if d == 8 {
        '8'
    } else {
        '9'
    }
}

/// The decimal text of a number, without leading zeros (a lone zero for 0).
pub open spec fn spec_dec_text(n: int) -> Seq<char>
    decreases n,
{
    if n < 10 {
        seq![spec_digit_char(n)]
    } else {
        spec_dec_text(n / 10) + seq![spec_digit_char(n % 10)]
    }
}

/// A digit string is never empty and holds digits only.
pub proof fn lemma_dec_text_digits(n: int)
    requires
        0 <= n,
    ensures
        spec_dec_text(n).len() >= 1,
        all_dec_digits(spec_dec_text(n)),
    decreases n,
{
    if n >= 10 {
        lemma_dec_text_digits(n / 10);
    }
}

/// Digit strings parse back to the value they were printed from.
pub proof fn lemma_dec_text_val(n: int)
    requires
        0 <= n,
    ensures
        dec_val(spec_dec_text(n)) == n,
    decreases n,
{
    if n < 10 {
        let s = spec_dec_text(n);
        assert(s =~= seq![spec_digit_char(n)]);
        assert(s.drop_last() =~= Seq::<char>::empty());
        assert(dec_val(Seq::<char>::empty()) == 0);
        assert(s.last() == spec_digit_char(n));
        assert(dec_val(s) == dec_val(s.drop_last()) * 10 + digit_of(s.last()));
        assert(digit_of(spec_digit_char(n)) == n);
    } else {
        lemma_dec_text_val(n / 10);
        let s = spec_dec_text(n);
        assert(s.drop_last() =~= spec_dec_text(n / 10));
        assert(s.last() == spec_digit_char(n % 10));
        assert(digit_of(spec_digit_char(n % 10)) == n % 10);
        assert(n / 10 * 10 + n % 10 == n) by (nonlinear_arith)
            requires
                n >= 10,
        ;
    }
}

/// A value only grows as digits are appended.
proof fn lemma_dec_val_prefix(s: Seq<char>, i: int)
    requires
        0 <= i <= s.len(),
        all_dec_digits(s),
    ensures
        0 <= dec_val(s.take(i)) <= dec_val(s),
    decreases s.len() - i,
{
    if i == s.len() {
        assert(s.take(i) =~= s);
        lemma_dec_val_nonneg(s);
    } else {
        lemma_dec_val_prefix(s, i + 1);
        assert(s.take(i + 1).drop_last() =~= s.take(i));
        assert(s.take(i + 1).last() == s[i]);
        lemma_dec_val_nonneg(s.take(i));
    }
}

proof fn lemma_dec_val_nonneg(s: Seq<char>)
    requires
        all_dec_digits(s),
    ensures
        dec_val(s) >= 0,
    decreases s.len(),
{
    if s.len() > 0 {
        assert(all_dec_digits(s.drop_last()));
        lemma_dec_val_nonneg(s.drop_last());
    }
}

/// Whether two string slices hold the same characters.
pub fn str_eq(a: &str, b: &str) -> (r: bool)
    ensures
        r == (a@ == b@),
{
    let n = a.unicode_len();
    if n != b.unicode_len() {
        return false;
    }
    let mut i: usize = 0;
    while i < n
        invariant
            0 <= i <= n,
            n == a@.len(),
            n == b@.len(),
            forall|j: int| 0 <= j < i ==> a@[j] == b@[j],
        decreases n - i,
    {
        if a.get_char(i) != b.get_char(i) {
            return false;
        }
        i += 1;
    }
    proof {
        assert(a@ =~= b@);
    }
    true
}

/// Parses a decimal number: digits only, value fitting a `u32`.
pub fn parse_u32(s: &str) -> (r: Option<u32>)
    ensures
        r == spec_parse_u32(s@),
{
    let n = s.unicode_len();
    if n == 0 {
        return None;
    }
    let mut acc: u32 = 0;
    let mut i: usize = 0;
    while i < n
        invariant
            0 < n == s@.len(),
            0 <= i <= n,
            all_dec_digits(s@.take(i as int)),
            acc == dec_val(s@.take(i as int)),
        decreases n - i,
    {
        let c = s.get_char(i);
        if c < '0' || c > '9' {
            return None;
        }
        let d: u32 = (c as u32) - 48;
        proof {
            assert(s@.take(i + 1).drop_last() =~= s@.take(i as int));
            assert(s@.take(i + 1).last() == s@[i as int]);
        }
        let step = match acc.checked_mul(10) {
            Some(m) => m.checked_add(d),
            None => None,
        };
        match step {
            Some(next) => {
                acc = next;
            },
            None => {
                proof {
                    if all_dec_digits(s@) {
                        lemma_dec_val_prefix(s@, i + 1);
                    }
                }
                return None;
            },
        }
        i += 1;
    }
    proof {
        assert(s@.take(n as int) =~= s@);
    }
    Some(acc)
}

fn digit_str(d: u32) -> (r: &'static str)
    requires
        d < 10,
    ensures
        r@ =~= seq![spec_digit_char(d as int)],
{
    let r: &'static str = if d == 0 {
        "0"
    } else if d == 1 {
        "1"
    } else if d == 2 {
        "2"
    } else if d == 3 {
        "3"
    } else if d == 4 {
        "4"
    } else if d == 5 {
        "5"
    } else if d == 6 {
        "6"
    } else if d == 7 {
        "7"
    } else if d == 8 {
        "8"
    } else {
        "9"
    };
    proof {
        reveal_strlit("0");
        reveal_strlit("1");
        reveal_strlit("2");
        reveal_strlit("3");
        reveal_strlit("4");
        reveal_strlit("5");
        reveal_strlit("6");
        reveal_strlit("7");
        reveal_strlit("8");
        reveal_strlit("9");
    }
    r
}

/// Appends the decimal text of `n`.
fn push_u32(out: &mut String, n: u32)
    ensures
        final(out)@ == old(out)@ + spec_dec_text(n as int),
    decreases n,
{
    if n >= 10 {
        push_u32(out, n / 10);
        out.append(digit_str(n % 10));
        proof {
            assert(out@ =~= old(out)@ + spec_dec_text(n as int));
        }
    } else {
        out.append(digit_str(n));
        proof {
            assert(out@ =~= old(out)@ + spec_dec_text(n as int));
        }
    }
}

/// Splitting on single spaces, as `split(' ')` yields it: between any two
/// spaces stands one (possibly empty) word.
pub open spec fn spec_split(s: Seq<char>) -> Seq<Seq<char>>
    decreases s.len(),
{
    if s.len() == 0 {
        seq![Seq::<char>::empty()]
    } else if s[0] == ' ' {
        seq![Seq::<char>::empty()] + spec_split(s.drop_first())
    } else {
        let rest = spec_split(s.drop_first());
        seq![seq![s[0]] + rest[0]] + rest.drop_first()
    }
}

/// A split always yields at least one word.
pub proof fn lemma_split_len(s: Seq<char>)
    ensures
        spec_split(s).len() >= 1,
    decreases s.len(),
{
    if s.len() > 0 {
        lemma_split_len(s.drop_first());
    }
}

/// Where the first space sits decides the first word: everything before it,
/// with the rest of the split carrying on behind it.
proof fn lemma_split_first(s: Seq<char>, j: int)
    requires
        0 <= j <= s.len(),
        forall|k: int| 0 <= k < j ==> s[k] != ' ',
    ensures
        j == s.len() ==> spec_split(s) =~~= seq![s],
        j < s.len() && s[j] == ' ' ==> spec_split(s) =~~= seq![s.take(j)] + spec_split(
            s.skip(j + 1),
        ),
    decreases s.len(),
{
    lemma_split_len(s);
    if j == 0 {
        if 0 < s.len() && s[0] == ' ' {
            assert(s.take(0) =~= Seq::<char>::empty());
            assert(s.skip(1) =~= s.drop_first());
        }
    } else {
        let t = s.drop_first();
        lemma_split_len(t);
        lemma_split_first(t, j - 1);
        let rest = spec_split(t);
        if j == s.len() {
            assert(rest =~~= seq![t]);
            assert(seq![s[0]] + rest[0] =~= s);
            assert(rest.drop_first() =~= Seq::<Seq<char>>::empty());
            assert(spec_split(s) =~~= seq![s]);
        } else if s[j] == ' ' {
            assert(t[j - 1] == s[j]);
            assert(rest =~~= seq![t.take(j - 1)] + spec_split(t.skip(j)));
            assert(seq![s[0]] + rest[0] =~= s.take(j));
            assert(t.skip(j) =~= s.skip(j + 1));
            assert(rest.drop_first() =~~= spec_split(s.skip(j + 1)));
            assert(spec_split(s) =~~= seq![s.take(j)] + spec_split(s.skip(j + 1)));
        }
    }
}

/// The views of a sequence of string slices.
pub open spec fn token_views(ts: Seq<&str>) -> Seq<Seq<char>> {
    Seq::new(ts.len(), |i: int| ts[i]@)
}

/// Splits a line into its space-separated words.
pub fn split_spaces<'a>(s: &'a str) -> (tokens: Vec<&'a str>)
    ensures
        token_views(tokens@) == spec_split(s@),
        tokens@.len() >= 1,
{
    let n = s.unicode_len();
    let mut tokens: Vec<&str> = Vec::new();
    let mut start: usize = 0;
    let mut i: usize = 0;
    proof {
        assert(s@.skip(0) =~= s@);
        assert(token_views(tokens@) =~= Seq::<Seq<char>>::empty());
        assert(token_views(tokens@) + spec_split(s@) =~~= spec_split(s@));
    }
    while i < n
        invariant
            0 <= start <= i <= n,
            n == s@.len(),
            forall|k: int| start <= k < i ==> s@[k] != ' ',
            spec_split(s@) =~~= token_views(tokens@) + spec_split(s@.skip(start as int)),
        decreases n - i,
    {
        let c = s.get_char(i);
        if c == ' ' {
            let tok = s.substring_char(start, i);
            proof {
                let suffix = s@.skip(start as int);
                assert(forall|k: int| 0 <= k < i - start ==> suffix[k] != ' ');
                lemma_split_first(suffix, i - start);
                assert(suffix.take(i - start) =~= tok@);
                assert(suffix.skip(i - start + 1) =~= s@.skip(i + 1));
                assert(token_views(tokens@.push(tok)) =~= token_views(tokens@) + seq![tok@]);
            }
            tokens.push(tok);
            start = i + 1;
        }
        i += 1;
    }
    let tok = s.substring_char(start, n);
    proof {
        let suffix = s@.skip(start as int);
        assert(forall|k: int| 0 <= k < suffix.len() ==> suffix[k] != ' ');
        lemma_split_first(suffix, suffix.len() as int);
        assert(suffix =~= tok@);
        assert(token_views(tokens@.push(tok)) =~= token_views(tokens@) + seq![tok@]);
    }
    tokens.push(tok);
    proof {
        assert(token_views(tokens@) =~~= spec_split(s@));
    }
    tokens
}

impl Direction {
    /// The protocol word of each direction.
    pub open spec fn spec_text(self) -> Seq<char> {
        match self {
            Direction::Up => "Up"@,
            Direction::Down => "Down"@,
            Direction::Left => "Left"@,
            Direction::Right => "Right"@,
        }
    }

    pub open spec fn spec_parse(s: Seq<char>) -> Result<Direction, ()> {
        if s == "Up"@ {
            Ok(Direction::Up)
        } else if s == "Down"@ {
            Ok(Direction::Down)
        } else if s == "Left"@ {
            Ok(Direction::Left)
        } else if s == "Right"@ {
            Ok(Direction::Right)
        } else {
            Err(())
        }
    }

    pub fn to_text(&self) -> (r: &'static str)
        ensures
            r@ == self.spec_text(),
    {
        match self {
            Direction::Up => "Up",
            Direction::Down => "Down",
            Direction::Left => "Left",
            Direction::Right => "Right",
        }
    }

    pub fn from_text(s: &str) -> (r: Result<Direction, ()>)
        ensures
            r == Direction::spec_parse(s@),
    {
        if str_eq(s, "Up") {
            Ok(Direction::Up)
        } else if str_eq(s, "Down") {
            Ok(Direction::Down)
        } else if str_eq(s, "Left") {
            Ok(Direction::Left)
        } else if str_eq(s, "Right") {
            Ok(Direction::Right)
        } else {
            Err(())
        }
    }
}

impl BoxAreaPosition {
    /// The protocol word of each corner.
    pub open spec fn spec_text(self) -> Seq<char> {
        match self {
            BoxAreaPosition::RightTop => "RightTop"@,
            BoxAreaPosition::RightBottom => "RightBottom"@,
            BoxAreaPosition::LeftBottom => "LeftBottom"@,
            BoxAreaPosition::LeftTop => "LeftTop"@,
        }
    }

    pub open spec fn spec_parse(s: Seq<char>) -> Result<BoxAreaPosition, ()> {
        if s == "RightTop"@ {
            Ok(BoxAreaPosition::RightTop)
        } else if s == "RightBottom"@ {
            Ok(BoxAreaPosition::RightBottom)
        } else if s == "LeftBottom"@ {
            Ok(BoxAreaPosition::LeftBottom)
        } else if s == "LeftTop"@ {
            Ok(BoxAreaPosition::LeftTop)
        } else {
            Err(())
        }
    }

    pub fn to_text(&self) -> (r: &'static str)
        ensures
            r@ == self.spec_text(),
    {
        match self {
            BoxAreaPosition::RightTop => "RightTop",
            BoxAreaPosition::RightBottom => "RightBottom",
            BoxAreaPosition::LeftBottom => "LeftBottom",
            BoxAreaPosition::LeftTop => "LeftTop",
        }
    }

    pub fn from_text(s: &str) -> (r: Result<BoxAreaPosition, ()>)
        ensures
            r == BoxAreaPosition::spec_parse(s@),
    {
        if str_eq(s, "RightTop") {
            Ok(BoxAreaPosition::RightTop)
        } else if str_eq(s, "RightBottom") {
            Ok(BoxAreaPosition::RightBottom)
        } else if str_eq(s, "LeftBottom") {
            Ok(BoxAreaPosition::LeftBottom)
        } else if str_eq(s, "LeftTop") {
            Ok(BoxAreaPosition::LeftTop)
        } else {
            Err(())
        }
    }
}

impl BoxAreaContent {
    /// The protocol word of each content kind.
    pub open spec fn spec_text(self) -> Seq<char> {
        match self {
            BoxAreaContent::Nothing => "Nothing"@,
            BoxAreaContent::HiddenBox => "HiddenBox"@,
            BoxAreaContent::EmptyGlass => "EmptyGlass"@,
            BoxAreaContent::FilledBottle => "FilledBottle"@,
            BoxAreaContent::EmptyBottle => "EmptyBottle"@,
        }
    }

    pub open spec fn spec_parse(s: Seq<char>) -> Result<BoxAreaContent, ()> {
        if s == "Nothing"@ {
            Ok(BoxAreaContent::Nothing)
        } else if s == "HiddenBox"@ {
            Ok(BoxAreaContent::HiddenBox)
        } else if s == "EmptyGlass"@ {
            Ok(BoxAreaContent::EmptyGlass)
        } else if s == "FilledBottle"@ {
            Ok(BoxAreaContent::FilledBottle)
        } else if s == "EmptyBottle"@ {
            Ok(BoxAreaContent::EmptyBottle)
        } else {
            Err(())
        }
    }

    pub fn to_text(&self) -> (r: &'static str)
        ensures
            r@ == self.spec_text(),
    {
        match self {
            BoxAreaContent::Nothing => "Nothing",
            BoxAreaContent::HiddenBox => "HiddenBox",
            BoxAreaContent::EmptyGlass => "EmptyGlass",
            BoxAreaContent::FilledBottle => "FilledBottle",
            BoxAreaContent::EmptyBottle => "EmptyBottle",
        }
    }

    pub fn from_text(s: &str) -> (r: Result<BoxAreaContent, ()>)
        ensures
            r == BoxAreaContent::spec_parse(s@),
    {
        if str_eq(s, "Nothing") {
            Ok(BoxAreaContent::Nothing)
        } else if str_eq(s, "HiddenBox") {
            Ok(BoxAreaContent::HiddenBox)
        } else if str_eq(s, "EmptyGlass") {
            Ok(BoxAreaContent::EmptyGlass)
        } else if str_eq(s, "FilledBottle") {
            Ok(BoxAreaContent::FilledBottle)
        } else if str_eq(s, "EmptyBottle") {
            Ok(BoxAreaContent::EmptyBottle)
        } else {
            Err(())
        }
    }
}

/// The mathematical form of a command: the player identifier as a sequence
/// of characters, everything else as itself.
pub enum CommandView {
    Spawn(Seq<char>, u32, u32),
    Remove(Seq<char>),
    Face(Seq<char>, Direction),
    Move(Seq<char>, Direction),
    Stop(Seq<char>),
    UpdateBoxArea(BoxAreaPosition, BoxAreaContent),
}

impl View for Command {
    type V = CommandView;

    open spec fn view(&self) -> CommandView {
        match self {
            Command::SpawnPlayer(id, x, y) => CommandView::Spawn(id@, *x, *y),
            Command::RemovePlayer(id) => CommandView::Remove(id@),
            Command::FacePlayer(id, d) => CommandView::Face(id@, *d),
            Command::MovePlayer(id, d) => CommandView::Move(id@, *d),
            Command::StopPlayer(id) => CommandView::Stop(id@),
            Command::UpdateBoxArea(p, c) => CommandView::UpdateBoxArea(*p, *c),
        }
    }
}

impl Command {
    /// The line form of a command: its keyword and its space-separated
    /// fields.
    pub open spec fn spec_text(v: CommandView) -> Seq<char> {
        match v {
            CommandView::Spawn(id, x, y) => "Spawn "@ + id + " "@ + spec_dec_text(x as int) + " "@
                + spec_dec_text(y as int),
            CommandView::Remove(id) => "Remove "@ + id,
            CommandView::Face(id, d) => "Face "@ + id + " "@ + d.spec_text(),
            CommandView::Move(id, d) => "Move "@ + id + " "@ + d.spec_text(),
            CommandView::Stop(id) => "Stop "@ + id,
            CommandView::UpdateBoxArea(p, c) => "UpdateBoxArea "@ + p.spec_text() + " "@
                + c.spec_text(),
        }
    }

    /// What parsing a line means: the first word picks the command, the
    /// following words fill its fields; missing or malformed fields fail.
    pub open spec fn spec_parse(s: Seq<char>) -> Result<CommandView, ()> {
        let toks = spec_split(s);
        if toks[0] == "Spawn"@ {
            if toks.len() >= 4 {
                match (spec_parse_u32(toks[2]), spec_parse_u32(toks[3])) {
                    (Some(x), Some(y)) => Ok(CommandView::Spawn(toks[1], x, y)),
                    _ => Err(()),
                }
            } else {
                Err(())
            }
        } else if toks[0] == "Remove"@ {
            if toks.len() >= 2 {
                Ok(CommandView::Remove(toks[1]))
            } else {
                Err(())
            }
        } else if toks[0] == "Face"@ {
            if toks.len() >= 3 {
                match Direction::spec_parse(toks[2]) {
                    Ok(d) => Ok(CommandView::Face(toks[1], d)),
                    Err(_) => Err(()),
                }
            } else {
                Err(())
            }
        } else if toks[0] == "Move"@ {
            if toks.len() >= 3 {
                match Direction::spec_parse(toks[2]) {
                    Ok(d) => Ok(CommandView::Move(toks[1], d)),
                    Err(_) => Err(()),
                }
            } else {
                Err(())
            }
        } else if toks[0] == "Stop"@ {
            if toks.len() >= 2 {
                Ok(CommandView::Stop(toks[1]))
            } else {
                Err(())
            }
        } else if toks[0] == "UpdateBoxArea"@ {
            if toks.len() >= 3 {
                match (BoxAreaPosition::spec_parse(toks[1]), BoxAreaContent::spec_parse(toks[2])) {
                    (Ok(p), Ok(c)) => Ok(CommandView::UpdateBoxArea(p, c)),
                    _ => Err(()),
                }
            } else {
                Err(())
            }
        } else {
            Err(())
        }
    }

    /// Serializes the command to its line form.
    pub fn to_text(&self) -> (r: String)
        ensures
            r@ == Command::spec_text(self@),
    {
        let mut out = String::new();
        match self {
            Command::SpawnPlayer(id, x, y) => {
                out.append("Spawn ");
                out.append(id.as_str());
                out.append(" ");
                push_u32(&mut out, *x);
                out.append(" ");
                push_u32(&mut out, *y);
            },
            Command::RemovePlayer(id) => {
                out.append("Remove ");
                out.append(id.as_str());
            },
            Command::FacePlayer(id, d) => {
                out.append("Face ");
                out.append(id.as_str());
                out.append(" ");
                out.append(d.to_text());
            },
            Command::MovePlayer(id, d) => {
                out.append("Move ");
                out.append(id.as_str());
                out.append(" ");
                out.append(d.to_text());
            },
            Command::StopPlayer(id) => {
                out.append("Stop ");
                out.append(id.as_str());
            },
            Command::UpdateBoxArea(p, c) => {
                out.append("UpdateBoxArea ");
                out.append(p.to_text());
                out.append(" ");
                out.append(c.to_text());
            },
        }
        out
    }

    /// Parses one line of the protocol.
    pub fn from_text(s: &str) -> (r: Result<Command, ()>)
        ensures
            match r {
                Ok(c) => Command::spec_parse(s@) == Ok::<CommandView, ()>(c@),
                Err(_) => Command::spec_parse(s@) is Err,
            },
    {
        let tokens = split_spaces(s);
        let head = tokens[0];
        if str_eq(head, "Spawn") {
            if tokens.len() >= 4 {
                match (parse_u32(tokens[2]), parse_u32(tokens[3])) {
                    (Some(x), Some(y)) => Ok(
                        Command::SpawnPlayer(tokens[1].to_owned(), x, y),
                    ),
                    _ => Err(()),
                }
            } else {
                Err(())
            }
        } else if str_eq(head, "Remove") {
            if tokens.len() >= 2 {
                Ok(Command::RemovePlayer(tokens[1].to_owned()))
            } else {
                Err(())
            }
        } else if str_eq(head, "Face") {
            if tokens.len() >= 3 {
                match Direction::from_text(tokens[2]) {
                    Ok(d) => Ok(Command::FacePlayer(tokens[1].to_owned(), d)),
                    Err(_) => Err(()),
                }
            } else {
                Err(())
            }
        } else if str_eq(head, "Move") {
            if tokens.len() >= 3 {
                match Direction::from_text(tokens[2]) {
                    Ok(d) => Ok(Command::MovePlayer(tokens[1].to_owned(), d)),
                    Err(_) => Err(()),
                }
            } else {
                Err(())
            }
        } else if str_eq(head, "Stop") {
            if tokens.len() >= 2 {
                Ok(Command::StopPlayer(tokens[1].to_owned()))
            } else {
                Err(())
            }
        } else if str_eq(head, "UpdateBoxArea") {
            if tokens.len() >= 3 {
                match (BoxAreaPosition::from_text(tokens[1]), BoxAreaContent::from_text(
                    tokens[2],
                )) {
                    (Ok(p), Ok(c)) => Ok(Command::UpdateBoxArea(p, c)),
                    _ => Err(()),
                }
            } else {
                Err(())
            }
        } else {
            Err(())
        }
    }
}

/// No character of the word is a space, so a split never cuts it apart.
pub open spec fn space_free(s: Seq<char>) -> bool {
    forall|k: int| 0 <= k < s.len() ==> s[k] != ' '
}

/// Splitting a space-free word followed by a space yields the word, with the
/// rest of the split carrying on behind it.
proof fn lemma_split_word(a: Seq<char>, b: Seq<char>)
    requires
        space_free(a),
    ensures
        spec_split(a + seq![' '] + b) =~~= seq![a] + spec_split(b),
{
    let s = a + seq![' '] + b;
    assert(s[a.len() as int] == ' ');
    assert(forall|k: int| 0 <= k < a.len() ==> s[k] == a[k]);
    lemma_split_first(s, a.len() as int);
    assert(s.take(a.len() as int) =~= a);
    assert(s.skip(a.len() as int + 1) =~= b);
}

/// Splitting a space-free word alone yields just that word.
proof fn lemma_split_single(a: Seq<char>)
    requires
        space_free(a),
    ensures
        spec_split(a) =~~= seq![a],
{
    lemma_split_first(a, a.len() as int);
}

/// A digit string holds no space.
proof fn lemma_digits_space_free(s: Seq<char>)
    requires
        all_dec_digits(s),
    ensures
        space_free(s),
{
    assert forall|k: int| 0 <= k < s.len() implies s[k] != ' ' by {
        assert(is_dec_digit(s[k]));
    }
}

/// Each direction word is space-free and parses back to its direction.
proof fn lemma_direction_text(d: Direction)
    ensures
        space_free(d.spec_text()),
        Direction::spec_parse(d.spec_text()) == Ok::<Direction, ()>(d),
{
    reveal_strlit("Up");
    reveal_strlit("Down");
    reveal_strlit("Left");
    reveal_strlit("Right");
    assert forall|k: int| 0 <= k < "Up"@.len() implies "Up"@[k] != ' ' by {
        reveal_strlit("Up");
    }
    assert forall|k: int| 0 <= k < "Down"@.len() implies "Down"@[k] != ' ' by {
        reveal_strlit("Down");
    }
    assert forall|k: int| 0 <= k < "Left"@.len() implies "Left"@[k] != ' ' by {
        reveal_strlit("Left");
    }
    assert forall|k: int| 0 <= k < "Right"@.len() implies "Right"@[k] != ' ' by {
        reveal_strlit("Right");
    }
    assert("Up"@.len() == 2);
    assert("Down"@.len() == 4);
    assert("Left"@.len() == 4);
    assert("Right"@.len() == 5);
    assert("Down"@[0] == 'D' && "Left"@[0] == 'L');
    match d {
        Direction::Up => {
            assert(Direction::spec_parse("Up"@) == Ok::<Direction, ()>(Direction::Up));
        },
        Direction::Down => {
            assert("Down"@ != "Up"@);
            assert(Direction::spec_parse("Down"@) == Ok::<Direction, ()>(Direction::Down));
        },
        Direction::Left => {
            assert("Left"@ != "Up"@);
            assert("Left"@ != "Down"@);
            assert(Direction::spec_parse("Left"@) == Ok::<Direction, ()>(Direction::Left));
        },
        Direction::Right => {
            assert("Right"@ != "Up"@);
            assert("Right"@ != "Down"@);
            assert("Right"@ != "Left"@);
            assert(Direction::spec_parse("Right"@) == Ok::<Direction, ()>(Direction::Right));
        },
    }
}

/// Each corner word is space-free and parses back to its corner.
proof fn lemma_position_text(p: BoxAreaPosition)
    ensures
        space_free(p.spec_text()),
        BoxAreaPosition::spec_parse(p.spec_text()) == Ok::<BoxAreaPosition, ()>(p),
{
    reveal_strlit("RightTop");
    reveal_strlit("RightBottom");
    reveal_strlit("LeftBottom");
    reveal_strlit("LeftTop");
    assert forall|k: int| 0 <= k < "RightTop"@.len() implies "RightTop"@[k] != ' ' by {
        reveal_strlit("RightTop");
    }
    assert forall|k: int| 0 <= k < "RightBottom"@.len() implies "RightBottom"@[k] != ' ' by {
        reveal_strlit("RightBottom");
    }
    assert forall|k: int| 0 <= k < "LeftBottom"@.len() implies "LeftBottom"@[k] != ' ' by {
        reveal_strlit("LeftBottom");
    }
    assert forall|k: int| 0 <= k < "LeftTop"@.len() implies "LeftTop"@[k] != ' ' by {
        reveal_strlit("LeftTop");
    }
}

/// Each content word is space-free and parses back to its content.
proof fn lemma_content_text(c: BoxAreaContent)
    ensures
        space_free(c.spec_text()),
        BoxAreaContent::spec_parse(c.spec_text()) == Ok::<BoxAreaContent, ()>(c),
{
    reveal_strlit("Nothing");
    reveal_strlit("HiddenBox");
    reveal_strlit("EmptyGlass");
    reveal_strlit("FilledBottle");
    reveal_strlit("EmptyBottle");
    assert forall|k: int| 0 <= k < "Nothing"@.len() implies "Nothing"@[k] != ' ' by {
        reveal_strlit("Nothing");
    }
    assert forall|k: int| 0 <= k < "HiddenBox"@.len() implies "HiddenBox"@[k] != ' ' by {
        reveal_strlit("HiddenBox");
    }
    assert forall|k: int| 0 <= k < "EmptyGlass"@.len() implies "EmptyGlass"@[k] != ' ' by {
        reveal_strlit("EmptyGlass");
    }
    assert forall|k: int| 0 <= k < "FilledBottle"@.len() implies "FilledBottle"@[k] != ' ' by {
        reveal_strlit("FilledBottle");
    }
    assert forall|k: int| 0 <= k < "EmptyBottle"@.len() implies "EmptyBottle"@[k] != ' ' by {
        reveal_strlit("EmptyBottle");
    }
}

/// The command keywords, each space-free, with its trailing-space form.
proof fn lemma_command_words()
    ensures
        "Spawn "@ == "Spawn"@ + seq![' '],
        "Remove "@ == "Remove"@ + seq![' '],
        "Face "@ == "Face"@ + seq![' '],
        "Move "@ == "Move"@ + seq![' '],
        "Stop "@ == "Stop"@ + seq![' '],
        "UpdateBoxArea "@ == "UpdateBoxArea"@ + seq![' '],
        " "@ == seq![' '],
        space_free("Spawn"@),
        space_free("Remove"@),
        space_free("Face"@),
        space_free("Move"@),
        space_free("Stop"@),
        space_free("UpdateBoxArea"@),
{
    reveal_strlit("Spawn ");
    reveal_strlit("Spawn");
    reveal_strlit("Remove ");
    reveal_strlit("Remove");
    reveal_strlit("Face ");
    reveal_strlit("Face");
    reveal_strlit("Move ");
    reveal_strlit("Move");
    reveal_strlit("Stop ");
    reveal_strlit("Stop");
    reveal_strlit("UpdateBoxArea ");
    reveal_strlit("UpdateBoxArea");
    reveal_strlit(" ");
    assert("Spawn "@ =~= "Spawn"@ + seq![' ']);
    assert("Remove "@ =~= "Remove"@ + seq![' ']);
    assert("Face "@ =~= "Face"@ + seq![' ']);
    assert("Move "@ =~= "Move"@ + seq![' ']);
    assert("Stop "@ =~= "Stop"@ + seq![' ']);
    assert("UpdateBoxArea "@ =~= "UpdateBoxArea"@ + seq![' ']);
    assert(" "@ =~= seq![' ']);
    assert forall|k: int| 0 <= k < "Spawn"@.len() implies "Spawn"@[k] != ' ' by {
        reveal_strlit("Spawn");
    }
    assert forall|k: int| 0 <= k < "Remove"@.len() implies "Remove"@[k] != ' ' by {
        reveal_strlit("Remove");
    }
    assert forall|k: int| 0 <= k < "Face"@.len() implies "Face"@[k] != ' ' by {
        reveal_strlit("Face");
    }
    assert forall|k: int| 0 <= k < "Move"@.len() implies "Move"@[k] != ' ' by {
        reveal_strlit("Move");
    }
    assert forall|k: int| 0 <= k < "Stop"@.len() implies "Stop"@[k] != ' ' by {
        reveal_strlit("Stop");
    }
    assert forall|k: int| 0 <= k < "UpdateBoxArea"@.len() implies "UpdateBoxArea"@[k] != ' ' by {
        reveal_strlit("UpdateBoxArea");
    }
}

/// The player identifier of a command holds no space.
pub open spec fn id_space_free(v: CommandView) -> bool {
    match v {
        CommandView::Spawn(id, _, _) => space_free(id),
        CommandView::Remove(id) => space_free(id),
        CommandView::Face(id, _) => space_free(id),
        CommandView::Move(id, _) => space_free(id),
        CommandView::Stop(id) => space_free(id),
        CommandView::UpdateBoxArea(_, _) => true,
    }
}

/// The codec round trip: any command whose player identifier holds no space
/// parses back, from its own line form, to exactly itself.
pub proof fn lemma_command_round_trip(v: CommandView)
    requires
        id_space_free(v),
    ensures
        Command::spec_parse(Command::spec_text(v)) == Ok::<CommandView, ()>(v),
{
    lemma_command_words();
    reveal_strlit("Spawn");
    reveal_strlit("Remove");
    reveal_strlit("Face");
    reveal_strlit("Move");
    reveal_strlit("Stop");
    reveal_strlit("UpdateBoxArea");
    match v {
        CommandView::Spawn(id, x, y) => {
            let dx = spec_dec_text(x as int);
            let dy = spec_dec_text(y as int);
            lemma_dec_text_digits(x as int);
            lemma_dec_text_digits(y as int);
            lemma_dec_text_val(x as int);
            lemma_dec_text_val(y as int);
            lemma_digits_space_free(dx);
            lemma_digits_space_free(dy);
            let b2 = dx + seq![' '] + dy;
            let b1 = id + seq![' '] + b2;
            assert(Command::spec_text(v) =~= "Spawn"@ + seq![' '] + b1);
            lemma_split_word("Spawn"@, b1);
            lemma_split_word(id, b2);
            lemma_split_word(dx, dy);
            lemma_split_single(dy);
            let toks = spec_split(Command::spec_text(v));
            assert(toks =~~= seq!["Spawn"@, id, dx, dy]);
            assert(spec_parse_u32(dx) == Some(x));
            assert(spec_parse_u32(dy) == Some(y));
        },
        CommandView::Remove(id) => {
            assert(Command::spec_text(v) =~= "Remove"@ + seq![' '] + id);
            lemma_split_word("Remove"@, id);
            lemma_split_single(id);
            let toks = spec_split(Command::spec_text(v));
            assert(toks =~~= seq!["Remove"@, id]);
        },
        CommandView::Face(id, d) => {
            lemma_direction_text(d);
            let b1 = id + seq![' '] + d.spec_text();
            assert(Command::spec_text(v) =~= "Face"@ + seq![' '] + b1);
            lemma_split_word("Face"@, b1);
            lemma_split_word(id, d.spec_text());
            lemma_split_single(d.spec_text());
            let toks = spec_split(Command::spec_text(v));
            assert(toks =~~= seq!["Face"@, id, d.spec_text()]);
        },
        CommandView::Move(id, d) => {
            lemma_direction_text(d);
            let b1 = id + seq![' '] + d.spec_text();
            assert(Command::spec_text(v) =~= "Move"@ + seq![' '] + b1);
            lemma_split_word("Move"@, b1);
            lemma_split_word(id, d.spec_text());
            lemma_split_single(d.spec_text());
            let toks = spec_split(Command::spec_text(v));
            assert(toks =~~= seq!["Move"@, id, d.spec_text()]);
        },
        CommandView::Stop(id) => {
            assert(Command::spec_text(v) =~= "Stop"@ + seq![' '] + id);
            lemma_split_word("Stop"@, id);
            lemma_split_single(id);
            let toks = spec_split(Command::spec_text(v));
            assert(toks =~~= seq!["Stop"@, id]);
        },
        CommandView::UpdateBoxArea(p, c) => {
            lemma_position_text(p);
            lemma_content_text(c);
            let b1 = p.spec_text() + seq![' '] + c.spec_text();
            assert(Command::spec_text(v) =~= "UpdateBoxArea"@ + seq![' '] + b1);
            lemma_split_word("UpdateBoxArea"@, b1);
            lemma_split_word(p.spec_text(), c.spec_text());
            lemma_split_single(c.spec_text());
            let toks = spec_split(Command::spec_text(v));
            assert(toks =~~= seq!["UpdateBoxArea"@, p.spec_text(), c.spec_text()]);
        },
    }
}

} // verus!
