use vstd::prelude::*;

verus! {

/// The commands the bot answers to.
#[derive(Clone, Copy, Debug, PartialEq, Eq, Structural)]
pub enum Command {
    Help,
    GetId,
    Ping,
    Dice,
}

/// What the bot does in answer to a command: one platform call.
pub enum Reply {
    /// Send `text` to `chat`; `html` asks the platform to read it as HTML.
    Text { chat: i64, text: String, html: bool },
    /// Ask the platform to roll a dice in `chat`.
    Dice { chat: i64 },
}

pub open spec fn digit_char(d: nat) -> char {
    if d == 0 { '0' }
    else if d == 1 { '1' }
    else if d == 2 { '2' }
    else if d == 3 { '3' }
    else if d == 4 { '4' }
    else if d == 5 { '5' }
    else if d == 6 { '6' }
    else if d == 7 { '7' }
    else if d == 8 { '8' }
    else { '9' }
}

/// The decimal digits of `n`, most significant first, with no leading zero.
pub open spec fn digits_of(n: nat) -> Seq<char>
    decreases n,
{
    if n < 10 {
        seq![digit_char(n)]
    } else {
        digits_of(n / 10) + seq![digit_char(n % 10)]
    }
}

/// `n` written in decimal, with a leading `-` when negative.
pub open spec fn decimal_of(n: int) -> Seq<char> {
    if n < 0 {
        seq!['-'] + digits_of((-n) as nat)
    } else {
        digits_of(n as nat)
    }
}

pub open spec fn help_text() -> Seq<char> {
    "/help \u{2014} Help\n/getid \u{2014} Get chat id\n/ping \u{2014} Pong!\n/dice \u{2014} Roll a dice"@
}

pub open spec fn ping_text() -> Seq<char> {
    "pong!"@
}

/// The text that tells a chat its own identifier, the identifier set as code.
pub open spec fn chat_id_text(chat: i64) -> Seq<char> {
    "The chat ID is: <code>"@ + decimal_of(chat as int) + "</code>"@
}

fn digit_str(d: u64) -> (r: &'static str)
    requires
        d < 10,
    ensures
        r@ == seq![digit_char(d as nat)],
{
    proof {
        reveal_strlit("0123456789");
    }
    let all: &'static str = "0123456789";
    let r = all.substring_char(d as usize, d as usize + 1);
    assert(r@ =~= seq![digit_char(d as nat)]);
    r
}

fn digits_string(n: u64) -> (r: String)
    ensures
        r@ == digits_of(n as nat),
    decreases n,
{
    if n < 10 {
        String::from_str(digit_str(n))
    } else {
        let head = digits_string(n / 10);
        head.concat(digit_str(n % 10))
    }
}

/// Writes `n` in decimal.
pub fn decimal_string(n: i64) -> (r: String)
    ensures
        r@ == decimal_of(n as int),
{
    if n < 0 {
        let magnitude: u64 = (0i128 - n as i128) as u64;
        let digits = digits_string(magnitude);
        proof {
            reveal_strlit("-");
        }
        let r = String::from_str("-").concat(digits.as_str());
        r
    } else {
        digits_string(n as u64)
    }
}

/// A character's code with ASCII upper case folded to lower case.
pub open spec fn fold(c: char) -> u32 {
    if 'A' <= c && c <= 'Z' {
        (c as u32 + 32) as u32
    } else {
        c as u32
    }
}

/// Equal but for the case of ASCII letters.
pub open spec fn eq_ignore_case(a: Seq<char>, b: Seq<char>) -> bool {
    &&& a.len() == b.len()
    &&& forall|i: int| 0 <= i < a.len() ==> fold(#[trigger] a[i]) == fold(b[i])
}

/// The index of the first `c` in `s`, or the length of `s` where there is none.
pub open spec fn first_index(s: Seq<char>, c: char) -> int
    decreases s.len(),
{
    if s.len() == 0 {
        0
    } else if s[0] == c {
        0
    } else {
        1 + first_index(s.drop_first(), c)
    }
}

/// `s` up to, not including, the first `c`.
pub open spec fn before(s: Seq<char>, c: char) -> Seq<char> {
    s.take(first_index(s, c))
}

/// `s` after the first `c`, where there is one.
pub open spec fn after(s: Seq<char>, c: char) -> Option<Seq<char>> {
    if first_index(s, c) < s.len() {
        Some(s.skip(first_index(s, c) + 1))
    } else {
        None
    }
}

/// The command a name stands for, whatever the case of its letters.
pub open spec fn command_named(name: Seq<char>) -> Option<Command> {
    if eq_ignore_case(name, "help"@) {
        Some(Command::Help)
    } else if eq_ignore_case(name, "getid"@) {
        Some(Command::GetId)
    } else if eq_ignore_case(name, "ping"@) {
        Some(Command::Ping)
    } else if eq_ignore_case(name, "dice"@) {
        Some(Command::Dice)
    } else {
        None
    }
}

/// The command in a message text addressed to the bot `bot_name`. The first
/// word is `/` and a command name, optionally followed by `@` and the bot's
/// name; both names are compared without regard to ASCII case, and the words
/// after the first are ignored.
pub open spec fn parsed_command(text: Seq<char>, bot_name: Seq<char>) -> Option<Command> {
    let word = before(text, ' ');
    if word.len() == 0 || word[0] != '/' {
        None
    } else {
        let body = word.drop_first();
        match after(body, '@') {
            Some(rest) => if eq_ignore_case(before(rest, '@'), bot_name) {
                command_named(before(body, '@'))
            } else {
                None
            },
            None => command_named(body),
        }
    }
}

proof fn lemma_first_index(s: Seq<char>, c: char, i: int)
    requires
        0 <= i <= s.len(),
        forall|j: int| 0 <= j < i ==> s[j] != c,
        i < s.len() ==> s[i] == c,
    ensures
        first_index(s, c) == i,
    decreases i,
{
    if i > 0 {
        lemma_first_index(s.drop_first(), c, i - 1);
    }
}

fn fold_char(c: char) -> (r: u32)
    ensures
        r == fold(c),
{
    if 'A' <= c && c <= 'Z' {
        c as u32 + 32
    } else {
        c as u32
    }
}

fn index_of(s: &str, c: char) -> (r: usize)
    ensures
        r == first_index(s@, c),
        r <= s@.len(),
{
    let n = s.unicode_len();
    let mut i: usize = 0;
    while i < n && s.get_char(i) != c
        invariant
            n == s@.len(),
            i <= n,
            forall|j: int| 0 <= j < i ==> s@[j] != c,
        decreases n - i,
    {
        i = i + 1;
    }
    proof {
        lemma_first_index(s@, c, i as int);
    }
    i
}

/// Tells whether `a` and `b` are equal but for the case of ASCII letters.
pub fn equal_ignoring_case(a: &str, b: &str) -> (r: bool)
    ensures
        r == eq_ignore_case(a@, b@),
{
    let n = a.unicode_len();
    if n != b.unicode_len() {
        return false;
    }
    let mut i: usize = 0;
    while i < n
        invariant
            n == a@.len(),
            n == b@.len(),
            i <= n,
            forall|j: int| 0 <= j < i ==> fold(#[trigger] a@[j]) == fold(b@[j]),
        decreases n - i,
    {
        if fold_char(a.get_char(i)) != fold_char(b.get_char(i)) {
            return false;
        }
        i = i + 1;
    }
    true
}

impl Command {
    /// The command a name stands for, whatever the case of its letters.
    pub fn from_name(name: &str) -> (r: Option<Command>)
        ensures
            r == command_named(name@),
    {
        proof {
            reveal_strlit("help");
            reveal_strlit("getid");
            reveal_strlit("ping");
            reveal_strlit("dice");
        }
        if equal_ignoring_case(name, "help") {
            Some(Command::Help)
        } else if equal_ignoring_case(name, "getid") {
            Some(Command::GetId)
        } else if equal_ignoring_case(name, "ping") {
            Some(Command::Ping)
        } else if equal_ignoring_case(name, "dice") {
            Some(Command::Dice)
        } else {
            None
        }
    }

    /// The command in a message `text` sent to the bot named `bot_name`, if
    /// the text is one.
    pub fn parse(text: &str, bot_name: &str) -> (r: Option<Command>)
        ensures
            r == parsed_command(text@, bot_name@),
    {
        let word = text.substring_char(0, index_of(text, ' '));
        let wlen = word.unicode_len();
        if wlen == 0 || word.get_char(0) != '/' {
            return None;
        }
        let body = word.substring_char(1, wlen);
        assert(body@ =~= word@.drop_first());
        let at = index_of(body, '@');
        let blen = body.unicode_len();
        let name = body.substring_char(0, at);
        if at < blen {
            let rest = body.substring_char(at + 1, blen);
            assert(rest@ =~= body@.skip(at + 1));
            let addressed = rest.substring_char(0, index_of(rest, '@'));
            if equal_ignoring_case(addressed, bot_name) {
                Command::from_name(name)
            } else {
                None
            }
        } else {
            assert(name@ =~= body@);
            Command::from_name(name)
        }
    }

    /// The list of commands with their descriptions, one per line.
    pub fn descriptions() -> (r: String)
        ensures
            r@ == help_text(),
    {
        String::from_str("/help \u{2014} Help\n/getid \u{2014} Get chat id\n/ping \u{2014} Pong!\n/dice \u{2014} Roll a dice")
    }

    /// Decides the answer to `cmd` received in `chat`.
    pub fn answer(chat: i64, cmd: Command) -> (r: Reply)
        ensures
            cmd == Command::Help ==> (r matches Reply::Text { chat: c, text, html }
                && c == chat && text@ == help_text() && !html),
            cmd == Command::GetId ==> (r matches Reply::Text { chat: c, text, html }
                && c == chat && text@ == chat_id_text(chat) && html),
            cmd == Command::Ping ==> (r matches Reply::Text { chat: c, text, html }
                && c == chat && text@ == ping_text() && !html),
            cmd == Command::Dice ==> (r matches Reply::Dice { chat: c } && c == chat),
    {
        match cmd {
            Command::Help => Reply::Text { chat, text: Command::descriptions(), html: false },
            Command::GetId => {
                let id = decimal_string(chat);
                let text = String::from_str("The chat ID is: <code>").concat(id.as_str()).concat(
                    "</code>",
                );
                Reply::Text { chat, text, html: true }
            },
            Command::Ping => Reply::Text { chat, text: String::from_str("pong!"), html: false },
            Command::Dice => Reply::Dice { chat },
        }
    }
}

} // verus!
