//! The grammar engine: pure, stateless decoding of one line of text into
//! an optional sender prefix, a verb, and typed parameters.
//!
//! Each step of the grammar is stated twice: once as a spec function over
//! `Seq<char>` (the mathematical definition of the wire grammar), and
//! once as an exec function whose contract says that its result is
//! exactly the spec function of its input.  Nothing else determines a
//! parse: the same line always yields the same result.

use vstd::prelude::*;

use crate::message::{Command, CommandModel, Error, ErrorModel, Message, MessageModel, NoticeModel,
    NoticeParams};
use crate::text::{is_wsc, lemma_token_prefix_len_unique, token_prefix_len, token_run_len, trim_str,
    trimmed, ws_prefix_len, ws_run_len};

verus! {

/// Whether `raw` begins with a prefix segment: a leading `:`, at least
/// one non-whitespace character, and a terminating whitespace character.
pub open spec fn line_has_prefix(raw: Seq<char>) -> bool {
    &&& raw.len() > 0
    &&& raw[0] == ':'
    &&& token_prefix_len(raw.skip(1)) > 0
    &&& 1 + token_prefix_len(raw.skip(1)) < raw.len()
}

/// The prefix segment of `raw`: the token after the leading `:`.
pub open spec fn spec_prefix(raw: Seq<char>) -> Seq<char> {
    raw.subrange(1, 1 + token_prefix_len(raw.skip(1)))
}

/// The command section of `raw`: what follows the prefix segment (or the
/// whole line when there is none), trimmed of surrounding whitespace.
pub open spec fn spec_section(raw: Seq<char>) -> Seq<char> {
    if line_has_prefix(raw) {
        trimmed(raw.skip(1 + token_prefix_len(raw.skip(1))))
    } else {
        trimmed(raw)
    }
}

/// The line grammar: an optional prefix introduced by a leading `:` and
/// terminated by whitespace, then a non-empty command section.  A line
/// whose command section is empty or all whitespace is invalid.
pub open spec fn spec_parse_line(raw: Seq<char>) -> Result<
    (Option<Seq<char>>, Seq<char>),
    ErrorModel,
> {
    if spec_section(raw).len() == 0 {
        Err(ErrorModel::InvalidLine(raw))
    } else if line_has_prefix(raw) {
        Ok((Some(spec_prefix(raw)), spec_section(raw)))
    } else {
        Ok((None, spec_section(raw)))
    }
}

/// The `NOTICE` parameter grammar: a non-empty target token, then the
/// rest after the separating whitespace run, with one optional leading
/// `:` trailing-marker stripped from the message.
pub open spec fn spec_parse_notice_params(p: Seq<char>) -> Result<NoticeModel, ErrorModel> {
    let w = ws_prefix_len(p);
    let tl = token_prefix_len(p.skip(w));
    if tl == 0 {
        Err(ErrorModel::InvalidParams("NOTICE"@, p))
    } else {
        let mp = ws_prefix_len(p.skip(w + tl));
        let mstart = if w + tl + mp < p.len() && p[w + tl + mp] == ':' {
            w + tl + mp + 1
        } else {
            w + tl + mp
        };
        Ok(NoticeModel { target: p.subrange(w, w + tl), message: p.skip(mstart) })
    }
}

/// The command-section grammar: a verb token matched verbatim against
/// the known-verb table, then that verb's parameter grammar applied to
/// everything after the first whitespace run following the verb.
pub open spec fn spec_parse_command(sec: Seq<char>) -> Result<CommandModel, ErrorModel> {
    let w = ws_prefix_len(sec);
    let vl = token_prefix_len(sec.skip(w));
    if vl == 0 {
        Err(ErrorModel::InvalidCommand(sec))
    } else if sec.subrange(w, w + vl) == "NOTICE"@ {
        if w + vl == sec.len() {
            Err(ErrorModel::InvalidParams("NOTICE"@, sec))
        } else {
            let pl = ws_prefix_len(sec.skip(w + vl));
            match spec_parse_notice_params(sec.skip(w + vl + pl)) {
                Ok(p) => Ok(CommandModel::Notice(p)),
                Err(e) => Err(e),
            }
        }
    } else {
        Err(ErrorModel::InvalidCommand(sec))
    }
}

/// A whole decode attempt: the line grammar, then the command grammar on
/// the extracted section, assembled into a message model.
pub open spec fn spec_parse_message(raw: Seq<char>) -> Result<MessageModel, ErrorModel> {
    match spec_parse_line(raw) {
        Err(e) => Err(e),
        Ok(pair) => match spec_parse_command(pair.1) {
            Err(e) => Err(e),
            Ok(c) => Ok(MessageModel { prefix: pair.0, command: c }),
        },
    }
}

/// The exec result of `parse_line` agrees with the spec result.
pub open spec fn line_result_matches(
    r: Result<(Option<String>, String), Error>,
    m: Result<(Option<Seq<char>>, Seq<char>), ErrorModel>,
) -> bool {
    match (r, m) {
        (Ok(p), Ok(q)) => p.0.deep_view() == q.0 && p.1@ == q.1,
        (Err(e), Err(em)) => e@ == em,
        _ => false,
    }
}

/// The exec result of `parse_notice_params` agrees with the spec result.
pub open spec fn notice_result_matches(
    r: Result<NoticeParams, Error>,
    m: Result<NoticeModel, ErrorModel>,
) -> bool {
    match (r, m) {
        (Ok(p), Ok(q)) => p@ == q,
        (Err(e), Err(em)) => e@ == em,
        _ => false,
    }
}

/// The exec result of `parse_command` agrees with the spec result.
pub open spec fn command_result_matches(
    r: Result<Command, Error>,
    m: Result<CommandModel, ErrorModel>,
) -> bool {
    match (r, m) {
        (Ok(c), Ok(cm)) => c@ == cm,
        (Err(e), Err(em)) => e@ == em,
        _ => false,
    }
}

/// The exec result of `parse_message` agrees with the spec result.
pub open spec fn message_result_matches(
    r: Result<Message, Error>,
    m: Result<MessageModel, ErrorModel>,
) -> bool {
    match (r, m) {
        (Ok(msg), Ok(mm)) => msg@ == mm,
        (Err(e), Err(em)) => e@ == em,
        _ => false,
    }
}

/// Split a raw line into its optional prefix and its command section.
pub fn parse_line(raw: &str) -> (r: Result<(Option<String>, String), Error>)
    ensures
        line_result_matches(r, spec_parse_line(raw@)),
{
    let len: usize = raw.unicode_len();
    if len > 0 && raw.get_char(0) == ':' {
        let tl: usize = token_run_len(raw, 1);
        if tl > 0 && 1 + tl < len {
            let prefix: String = String::from_str(raw.substring_char(1, 1 + tl));
            let rest: &str = raw.substring_char(1 + tl, len);
            let section: String = trim_str(rest);
            proof {
                assert(rest@ =~= raw@.skip(1 + tl as int));
                assert(prefix@ =~= spec_prefix(raw@));
            }
            if section.as_str().unicode_len() == 0 {
                return Err(Error::InvalidLine(String::from_str(raw)));
            }
            return Ok((Some(prefix), section));
        }
    }
    let section: String = trim_str(raw);
    if section.as_str().unicode_len() == 0 {
        Err(Error::InvalidLine(String::from_str(raw)))
    } else {
        Ok((None, section))
    }
}

/// Parse the `NOTICE` parameter string into its typed payload.
pub fn parse_notice_params(params: &str) -> (r: Result<NoticeParams, Error>)
    ensures
        notice_result_matches(r, spec_parse_notice_params(params@)),
{
    let len: usize = params.unicode_len();
    let w: usize = ws_run_len(params, 0);
    proof {
        assert(params@.skip(0) =~= params@);
    }
    let tl: usize = token_run_len(params, w);
    if tl == 0 {
        return Err(Error::InvalidParams(String::from_str("NOTICE"), String::from_str(params)));
    }
    let target: String = String::from_str(params.substring_char(w, w + tl));
    let mp: usize = ws_run_len(params, w + tl);
    let mut mstart: usize = w + tl + mp;
    if mstart < len && params.get_char(mstart) == ':' {
        mstart = mstart + 1;
    }
    let message: String = String::from_str(params.substring_char(mstart, len));
    proof {
        assert(target@ =~= params@.subrange(w as int, w as int + tl as int));
        assert(message@ =~= params@.skip(mstart as int));
    }
    Ok(NoticeParams { target, message })
}

/// Parse a command section: the verb picks the parameter grammar.
pub fn parse_command(section: &str) -> (r: Result<Command, Error>)
    ensures
        command_result_matches(r, spec_parse_command(section@)),
{
    let len: usize = section.unicode_len();
    let w: usize = ws_run_len(section, 0);
    proof {
        assert(section@.skip(0) =~= section@);
    }
    let vl: usize = token_run_len(section, w);
    if vl == 0 {
        return Err(Error::InvalidCommand(String::from_str(section)));
    }
    let verb: String = String::from_str(section.substring_char(w, w + vl));
    let notice: String = String::from_str("NOTICE");
    if verb == notice {
        if w + vl == len {
            return Err(Error::InvalidParams(notice, String::from_str(section)));
        }
        let pl: usize = ws_run_len(section, w + vl);
        let params: &str = section.substring_char(w + vl + pl, len);
        proof {
            assert(params@ =~= section@.skip(w as int + vl as int + pl as int));
        }
        match parse_notice_params(params) {
            Ok(p) => Ok(Command::Notice(p)),
            Err(e) => Err(e),
        }
    } else {
        Err(Error::InvalidCommand(String::from_str(section)))
    }
}

/// Decode one whole line into a message: prefix, verb, and parameters.
pub fn parse_message(raw: &str) -> (r: Result<Message, Error>)
    ensures
        message_result_matches(r, spec_parse_message(raw@)),
{
    match parse_line(raw) {
        Err(e) => Err(e),
        Ok((prefix, section)) => match parse_command(section.as_str()) {
            Err(e) => Err(e),
            Ok(command) => Ok(Message { prefix, command }),
        },
    }
}

/// A token followed by whitespace is the leading token of the
/// concatenation.
proof fn lemma_token_prefix_concat(s: Seq<char>, tail: Seq<char>)
    requires
        forall|i: int| 0 <= i < s.len() ==> !is_wsc(s[i]),
        tail.len() > 0,
        is_wsc(tail[0]),
    ensures
        token_prefix_len(s.add(tail)) == s.len(),
{
    assert(s.add(tail)[s.len() as int] == tail[0]);
    lemma_token_prefix_len_unique(s.add(tail), s.len() as int);
}

/// Law: a line built as `:` + prefix + whitespace + section parses to
/// exactly that prefix, with the trimmed remainder as command section.
/// The prefix may be any non-empty string free of whitespace.
pub proof fn lemma_parse_line_prefix(s: Seq<char>, tail: Seq<char>)
    requires
        s.len() > 0,
        forall|i: int| 0 <= i < s.len() ==> !is_wsc(s[i]),
        tail.len() > 0,
        is_wsc(tail[0]),
        trimmed(tail).len() > 0,
    ensures
        spec_parse_line(seq![':'].add(s).add(tail)) == Ok::<
            (Option<Seq<char>>, Seq<char>),
            ErrorModel,
        >((Some(s), trimmed(tail))),
{
    let raw = seq![':'].add(s).add(tail);
    assert(raw.skip(1) =~= s.add(tail));
    lemma_token_prefix_concat(s, tail);
    assert(line_has_prefix(raw));
    assert(spec_prefix(raw) =~= s);
    assert(raw.skip(1 + s.len() as int) =~= tail);
    assert(spec_section(raw) == trimmed(tail));
}

/// Law: decoding is a function of the line alone.  Any two results that
/// the contract of `parse_message` admits for the same line are
/// structurally equal: no hidden state affects a parse.
pub proof fn lemma_parse_message_deterministic(
    raw: Seq<char>,
    r1: Result<Message, Error>,
    r2: Result<Message, Error>,
)
    requires
        message_result_matches(r1, spec_parse_message(raw)),
        message_result_matches(r2, spec_parse_message(raw)),
    ensures
        match (r1, r2) {
            (Ok(a), Ok(b)) => a@ == b@,
            (Err(a), Err(b)) => a@ == b@,
            _ => false,
        },
{
}

/// Law: a line with no leading `:` parses with no prefix, and its
/// command section is the whole line trimmed of surrounding whitespace.
/// (A line that is empty or all whitespace is invalid instead.)
pub proof fn lemma_parse_line_no_prefix(raw: Seq<char>)
    requires
        raw.len() > 0 ==> raw[0] != ':',
        trimmed(raw).len() > 0,
    ensures
        spec_parse_line(raw) == Ok::<(Option<Seq<char>>, Seq<char>), ErrorModel>((
            None,
            trimmed(raw),
        )),
{
    assert(!line_has_prefix(raw));
}

} // verus!
