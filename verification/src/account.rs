//! The `account` command of the command line: what it reads and what it
//! prints.

use vstd::prelude::*;
use vstd::string::{StrSliceExecFns, StringExecFns};
use itertools::Itertools;

verus! {

/// The `account` command.
#[derive(Clone, Copy, Debug)]
pub struct Account;

/// What the `account` command can be asked to do.
#[derive(Clone, Copy, Debug, PartialEq, Eq, Structural)]
pub enum AccountCommand {
    Create,
    Login,
    Logout,
    Get,
    ListDevices,
    RevokeDevice,
    Redeem,
}

/// The status code with which a call to the daemon fails.
#[derive(Clone, Copy, Debug, PartialEq, Eq, Structural)]
pub enum Code {
    Cancelled,
    Unknown,
    InvalidArgument,
    DeadlineExceeded,
    NotFound,
    AlreadyExists,
    PermissionDenied,
    ResourceExhausted,
    FailedPrecondition,
    Aborted,
    OutOfRange,
    Unimplemented,
    Internal,
    Unavailable,
    DataLoss,
    Unauthenticated,
}

/// What a failed submission of a voucher amounts to.
#[derive(Clone, Copy, Debug, PartialEq, Eq, Structural)]
pub enum VoucherFailure {
    /// The voucher was turned down: the command tells why and fails.
    Rejected,
    /// The call itself failed: the error is handed on.
    RpcFailed,
}

/// The longest duration, in seconds, that can be formatted.
pub const MAX_DURATION_SECONDS: u64 = 9_223_372_036_854_775;

/// The character of the decimal digit `d`.
pub open spec fn digit(d: nat) -> char {
    if d == 0 {
        '0'
    } else if d == 1 {
        '1'
    } else if d == 2 {
        '2'
    } else if d == 3 {
        '3'
    } else if d == 4 {
        '4'
    } else if d == 5 {
        '5'
    } else if d == 6 {
        '6'
    } else if d == 7 {
        '7'
    } else if d == 8 {
        '8'
    } else {
        '9'
    }
}

/// The decimal numeral of `n`: most significant digit first, no leading
/// zero but for zero itself.
pub open spec fn decimal(n: nat) -> Seq<char>
    decreases n,
{
    if n < 10 {
        seq![digit(n)]
    } else {
        decimal(n / 10).push(digit(n % 10))
    }
}

/// `words` written one after the other with `separator` between each two.
pub open spec fn joined(words: Seq<Seq<char>>, separator: Seq<char>) -> Seq<char>
    decreases words.len(),
{
    if words.len() == 0 {
        Seq::empty()
    } else if words.len() == 1 {
        words[0]
    } else {
        words[0] + separator + joined(words.drop_first(), separator)
    }
}

/// View of a list of words.
pub open spec fn words_view(words: Seq<String>) -> Seq<Seq<char>> {
    Seq::new(words.len(), |i: int| words[i]@)
}

/// The words of `text`: its maximal runs of characters that are not
/// white space, in order.
pub uninterp spec fn whitespace_words(text: Seq<char>) -> Seq<Seq<char>>;

/// Whether `c` is white space.
pub uninterp spec fn white_space(c: char) -> bool;

/// `text` without its white space: its other characters, in order.
pub open spec fn without_white_space(text: Seq<char>) -> Seq<char> {
    text.filter(|c: char| !white_space(c))
}

/// Whether `c` is a letter or a number.
pub uninterp spec fn alphanumeric(c: char) -> bool;

/// What a duration of `seconds` is printed as: in whole days where it
/// holds at least one, else in whole hours, else minutes, else seconds.
pub open spec fn duration_text(seconds: nat) -> Seq<char> {
    if seconds / 86400 > 0 {
        decimal(seconds / 86400) + " days"@
    } else if seconds / 3600 > 0 {
        decimal(seconds / 3600) + " hours"@
    } else if seconds / 60 > 0 {
        decimal(seconds / 60) + " minutes"@
    } else {
        decimal(seconds) + " seconds"@
    }
}

/// `chrono::Duration::num_days` of the duration that
/// `chrono::Duration::seconds` makes of `seconds`: the whole days of
/// 86400 seconds that it holds. Durations of more than
/// [`MAX_DURATION_SECONDS`] cannot be made.
#[verifier::external_body]
fn whole_days(seconds: i64) -> (days: i64)
    requires
        0 <= seconds <= MAX_DURATION_SECONDS,
    ensures
        days == seconds / 86400,
{
    chrono::Duration::seconds(seconds).num_days()
}

/// `chrono::Duration::num_hours` of the duration that
/// `chrono::Duration::seconds` makes of `seconds`: the whole hours of
/// 3600 seconds that it holds.
#[verifier::external_body]
fn whole_hours(seconds: i64) -> (hours: i64)
    requires
        0 <= seconds <= MAX_DURATION_SECONDS,
    ensures
        hours == seconds / 3600,
{
    chrono::Duration::seconds(seconds).num_hours()
}

/// `chrono::Duration::num_minutes` of the duration that
/// `chrono::Duration::seconds` makes of `seconds`: the whole minutes of
/// 60 seconds that it holds.
#[verifier::external_body]
fn whole_minutes(seconds: i64) -> (minutes: i64)
    requires
        0 <= seconds <= MAX_DURATION_SECONDS,
    ensures
        minutes == seconds / 60,
{
    chrono::Duration::seconds(seconds).num_minutes()
}

/// `chrono::Duration::num_seconds` of the duration that
/// `chrono::Duration::seconds` makes of `seconds`: that number again.
#[verifier::external_body]
fn whole_seconds(seconds: i64) -> (same: i64)
    requires
        0 <= seconds <= MAX_DURATION_SECONDS,
    ensures
        same == seconds,
{
    chrono::Duration::seconds(seconds).num_seconds()
}

/// `itertools::Itertools::join` over the words: each word as it stands,
/// in order, with `separator` between each two.
#[verifier::external_body]
fn join_with(words: &Vec<String>, separator: &str) -> (text: String)
    ensures
        text@ == joined(words_view(words@), separator@),
{
    words.iter().join(separator)
}

/// `str::split_whitespace`: the words of `text`, in order, each as a
/// string of its own. The words are what any amount of white space
/// separates, so that together they hold the text without its white
/// space. Which characters are white space is left to std, which takes
/// the same ones here and in `char::is_whitespace`.
#[verifier::external_body]
fn split_whitespace(text: &str) -> (words: Vec<String>)
    ensures
        words_view(words@) == whitespace_words(text@),
        joined(words_view(words@), Seq::empty()) == text@.filter(|c: char| !white_space(c)),
{
    text.split_whitespace().map(String::from).collect()
}

/// `char::is_alphanumeric`: whether `c` is a letter or a number. Which
/// characters are is left to std.
#[verifier::external_body]
fn is_alphanumeric(c: char) -> (yes: bool)
    ensures
        yes == alphanumeric(c),
{
    c.is_alphanumeric()
}

/// `String::push`: appends the character `c` to `text`.
#[verifier::external_body]
fn push_char(text: &mut String, c: char)
    ensures
        final(text)@ == old(text)@.push(c),
{
    text.push(c)
}

/// The character of the decimal digit `d`.
fn digit_char(d: u64) -> (c: char)
    requires
        d < 10,
    ensures
        c == digit(d as nat),
{
    if d == 0 {
        '0'
    } else if d == 1 {
        '1'
    } else if d == 2 {
        '2'
    } else if d == 3 {
        '3'
    } else if d == 4 {
        '4'
    } else if d == 5 {
        '5'
    } else if d == 6 {
        '6'
    } else if d == 7 {
        '7'
    } else if d == 8 {
        '8'
    } else {
        '9'
    }
}

/// Appends the decimal numeral of `n` to `text`.
fn push_decimal(text: &mut String, n: u64)
    ensures
        final(text)@ == old(text)@ + decimal(n as nat),
    decreases n,
{
    if n >= 10 {
        push_decimal(text, n / 10);
    }
    push_char(text, digit_char(n % 10));
    assert(text@ =~= old(text)@ + decimal(n as nat));
}

impl Account {
    /// The decimal numeral of `n`.
    pub fn decimal_string(n: u64) -> (text: String)
        ensures
            text@ == decimal(n as nat),
    {
        let mut text = String::new();
        push_decimal(&mut text, n);
        assert(text@ =~= decimal(n as nat));
        text
    }

    /// The name of the command.
    pub fn name(&self) -> (name: &'static str)
        ensures
            name@ == "account"@,
    {
        "account"
    }

    /// The action that the subcommand `name` asks for; `None` where
    /// `name` is no subcommand.
    pub fn subcommand(name: &str) -> (command: Option<AccountCommand>)
        ensures
            command == if name@ == "create"@ {
                Some(AccountCommand::Create)
            } else if name@ == "login"@ {
                Some(AccountCommand::Login)
            } else if name@ == "logout"@ {
                Some(AccountCommand::Logout)
            } else if name@ == "get"@ {
                Some(AccountCommand::Get)
            } else if name@ == "list-devices"@ {
                Some(AccountCommand::ListDevices)
            } else if name@ == "revoke-device"@ {
                Some(AccountCommand::RevokeDevice)
            } else if name@ == "redeem"@ {
                Some(AccountCommand::Redeem)
            } else {
                None
            },
    {
        let name = String::from_str(name);
        if name == String::from_str("create") {
            Some(AccountCommand::Create)
        } else if name == String::from_str("login") {
            Some(AccountCommand::Login)
        } else if name == String::from_str("logout") {
            Some(AccountCommand::Logout)
        } else if name == String::from_str("get") {
            Some(AccountCommand::Get)
        } else if name == String::from_str("list-devices") {
            Some(AccountCommand::ListDevices)
        } else if name == String::from_str("revoke-device") {
            Some(AccountCommand::RevokeDevice)
        } else if name == String::from_str("redeem") {
            Some(AccountCommand::Redeem)
        } else {
            None
        }
    }

    /// What the submission of a voucher that ended with `code` amounts
    /// to: a voucher that is unknown or used up was turned down, and
    /// anything else is a failure of the call.
    pub fn voucher_failure(code: Code) -> (failure: VoucherFailure)
        ensures
            failure == if code is NotFound || code is ResourceExhausted {
                VoucherFailure::Rejected
            } else {
                VoucherFailure::RpcFailed
            },
    {
        match code {
            Code::NotFound | Code::ResourceExhausted => VoucherFailure::Rejected,
            _ => VoucherFailure::RpcFailed,
        }
    }

    /// A duration of `seconds` in its largest whole unit, as it is
    /// printed after a voucher was redeemed.
    pub fn format_duration(seconds: u64) -> (text: String)
        requires
            seconds <= MAX_DURATION_SECONDS,
        ensures
            text@ == duration_text(seconds as nat),
    {
        let seconds: i64 = seconds as i64;
        let days = whole_days(seconds);
        let hours = whole_hours(seconds);
        let minutes = whole_minutes(seconds);
        if days > 0 {
            Self::decimal_string(days as u64).concat(" days")
        } else if hours > 0 {
            Self::decimal_string(hours as u64).concat(" hours")
        } else if minutes > 0 {
            Self::decimal_string(minutes as u64).concat(" minutes")
        } else {
            Self::decimal_string(whole_seconds(seconds) as u64).concat(" seconds")
        }
    }

    /// [`Account::format_duration`] where `seconds` can be formatted;
    /// `None` where it is too long.
    pub fn try_format_duration(seconds: u64) -> (text: Option<String>)
        ensures
            seconds <= MAX_DURATION_SECONDS ==> (text matches Some(t) && t@ == duration_text(
                seconds as nat,
            )),
            seconds > MAX_DURATION_SECONDS ==> text is None,
    {
        if seconds <= MAX_DURATION_SECONDS {
            Some(Self::format_duration(seconds))
        } else {
            None
        }
    }

    /// `words` written one after the other.
    pub fn concat_words(words: &Vec<String>) -> (text: String)
        ensures
            text@ == joined(words_view(words@), Seq::empty()),
    {
        let text = join_with(words, "");
        proof {
            reveal_strlit("");
            assert(""@ =~= Seq::<char>::empty());
        }
        text
    }

    /// What was typed or given as an argument, without its white space:
    /// its words, written one after the other.
    pub fn strip_whitespace(val: &str) -> (text: String)
        ensures
            text@ == joined(whitespace_words(val@), Seq::empty()),
            text@ == without_white_space(val@),
    {
        let words = split_whitespace(val);
        Self::concat_words(&words)
    }

    /// Appends `c` to `text` where `keep` says so, and leaves `text` as it
    /// is where not.
    pub fn append_if(text: &mut String, c: char, keep: bool)
        ensures
            final(text)@ == if keep {
                old(text)@.push(c)
            } else {
                old(text)@
            },
    {
        if keep {
            push_char(text, c);
        }
    }

    /// A voucher code as it is submitted: its letters and numbers, in
    /// order, and nothing else.
    pub fn sanitize_voucher(voucher: &str) -> (code: String)
        ensures
            code@ == voucher@.filter(|c: char| alphanumeric(c)),
    {
        let keep = Ghost(|c: char| alphanumeric(c));
        let mut code = String::new();
        let n = voucher.unicode_len();
        let mut i: usize = 0;
        proof {
            reveal(Seq::filter);
            assert(voucher@.take(0) =~= Seq::<char>::empty());
        }
        while i < n
            invariant
                i <= n,
                n == voucher@.len(),
                keep@ == (|c: char| alphanumeric(c)),
                code@ == voucher@.take(i as int).filter(keep@),
            decreases n - i,
        {
            let c = voucher.get_char(i);
            proof {
                reveal(Seq::filter);
                let longer = voucher@.take(i as int + 1);
                assert(longer.drop_last() =~= voucher@.take(i as int));
                assert(longer.last() == c);
            }
            Self::append_if(&mut code, c, is_alphanumeric(c));
            i += 1;
        }
        assert(voucher@.take(n as int) =~= voucher@);
        code
    }
}

} // verus!
