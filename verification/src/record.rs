//! The record model: a caller identity and a call request, and their
//! serialization into the PBX's CR-LF line format.

use vstd::prelude::*;

use crate::decimal::dec_str;
use crate::decimal::i16_to_dec;

verus! {

/// The identity an outbound call presents: the number, and an optional
/// display name. The caller is expected to supply a non-empty number and
/// values free of control characters; no validation is performed here.
pub struct CallerId {
    pub num: String,
    pub name: Option<String>,
}

/// The mathematical view of a [`CallerId`]: its fields as character
/// sequences.
pub struct CallerIdView {
    pub num: Seq<char>,
    pub name: Option<Seq<char>>,
}

impl View for CallerId {
    type V = CallerIdView;

    open spec fn view(&self) -> CallerIdView {
        CallerIdView {
            num: self.num@,
            name: match self.name {
                Some(n) => Some(n@),
                None => None,
            },
        }
    }
}

/// The wire text of a caller identity: `<number>`, preceded by
/// `'<name>' ` (with the trailing space) when a display name is present.
pub open spec fn caller_id_text(v: CallerIdView) -> Seq<char> {
    match v.name {
        Some(name) => "'"@ + name + "' <"@ + v.num + ">"@,
        None => "<"@ + v.num + ">"@,
    }
}

impl CallerId {
    /// Validation-free construction: the fields are stored as given.
    pub fn new(num: String, name: Option<String>) -> (r: CallerId)
        ensures
            r.num == num,
            r.name == name,
    {
        CallerId { num, name }
    }

    /// Serializes the identity exactly as [`caller_id_text`] states.
    pub fn to_text(&self) -> (r: String)
        ensures
            r@ == caller_id_text(self@),
    {
        let mut ret = String::new();
        match &self.name {
            Some(name) => {
                ret.append("'");
                ret.append(name.as_str());
                ret.append("' <");
            },
            None => {
                ret.append("<");
            },
        }
        ret.append(self.num.as_str());
        ret.append(">");
        proof {
            assert(ret@ =~= caller_id_text(self@));
        }
        ret
    }
}

/// A request for one outbound call: the trunk to originate on, the
/// identity to present, and optional dialing parameters. Immutable once
/// constructed; serialization is a pure function of the fields.
pub struct CallFile {
    pub channel: String,
    pub caller_id: CallerId,
    pub wait_time_secs: Option<i16>,
    pub max_retries: Option<i16>,
    pub retry_time_secs: Option<i16>,
    pub account: Option<String>,
}

/// The mathematical view of a [`CallFile`]: strings as character
/// sequences, integers as unbounded integers.
pub struct CallFileView {
    pub channel: Seq<char>,
    pub caller_id: CallerIdView,
    pub wait_time_secs: Option<int>,
    pub max_retries: Option<int>,
    pub retry_time_secs: Option<int>,
    pub account: Option<Seq<char>>,
}

impl View for CallFile {
    type V = CallFileView;

    open spec fn view(&self) -> CallFileView {
        CallFileView {
            channel: self.channel@,
            caller_id: self.caller_id@,
            wait_time_secs: match self.wait_time_secs {
                Some(t) => Some(t as int),
                None => None,
            },
            max_retries: match self.max_retries {
                Some(r) => Some(r as int),
                None => None,
            },
            retry_time_secs: match self.retry_time_secs {
                Some(t) => Some(t as int),
                None => None,
            },
            account: match self.account {
                Some(a) => Some(a@),
                None => None,
            },
        }
    }
}

/// The always-present first line, `Channel: <channel>`, CR-LF terminated.
pub open spec fn channel_line(channel: Seq<char>) -> Seq<char> {
    "Channel: "@ + channel + "\r\n"@
}

/// The always-present second line, `CallerID: "<caller id text>"`, CR-LF
/// terminated.
pub open spec fn caller_id_line(v: CallerIdView) -> Seq<char> {
    "CallerID: \""@ + caller_id_text(v) + "\"\r\n"@
}

/// The `WaitTime:` line, present only when the field is set.
pub open spec fn wait_time_line(t: int) -> Seq<char> {
    "WaitTime: "@ + dec_str(t) + "\r\n"@
}

/// The `MaxRetries:` line, present only when the field is set.
pub open spec fn max_retries_line(r: int) -> Seq<char> {
    "MaxRetries: "@ + dec_str(r) + "\r\n"@
}

/// The `RetryTime:` line, present only when the field is set.
pub open spec fn retry_time_line(t: int) -> Seq<char> {
    "RetryTime: "@ + dec_str(t) + "\r\n"@
}

/// The `Account:` line, present only when the field is set.
pub open spec fn account_line(a: Seq<char>) -> Seq<char> {
    "Account: "@ + a + "\r\n"@
}

/// The whole wire text of a call file: the two required lines, then each
/// optional line exactly when its field is set, in this fixed order.
pub open spec fn call_file_text(v: CallFileView) -> Seq<char> {
    channel_line(v.channel) + caller_id_line(v.caller_id) + (match v.wait_time_secs {
        Some(t) => wait_time_line(t),
        None => Seq::empty(),
    }) + (match v.max_retries {
        Some(r) => max_retries_line(r),
        None => Seq::empty(),
    }) + (match v.retry_time_secs {
        Some(t) => retry_time_line(t),
        None => Seq::empty(),
    }) + (match v.account {
        Some(a) => account_line(a),
        None => Seq::empty(),
    })
}

impl CallFile {
    /// Serializes the request exactly as [`call_file_text`] states: a pure
    /// function of the fields, with no side effects.
    pub fn to_text(&self) -> (r: String)
        ensures
            r@ == call_file_text(self@),
    {
        let mut ret = String::new();
        ret.append("Channel: ");
        ret.append(self.channel.as_str());
        ret.append("\r\n");
        ret.append("CallerID: \"");
        let cid = self.caller_id.to_text();
        ret.append(cid.as_str());
        ret.append("\"\r\n");
        let ghost text0 = channel_line(self@.channel) + caller_id_line(self@.caller_id);
        proof {
            assert(ret@ =~= text0);
        }
        if let Some(t) = self.wait_time_secs {
            ret.append("WaitTime: ");
            let digits = i16_to_dec(t);
            ret.append(digits.as_str());
            ret.append("\r\n");
        }
        let ghost text1 = text0 + (match self@.wait_time_secs {
            Some(t) => wait_time_line(t),
            None => Seq::empty(),
        });
        proof {
            assert(ret@ =~= text1);
        }
        if let Some(r) = self.max_retries {
            ret.append("MaxRetries: ");
            let digits = i16_to_dec(r);
            ret.append(digits.as_str());
            ret.append("\r\n");
        }
        let ghost text2 = text1 + (match self@.max_retries {
            Some(r) => max_retries_line(r),
            None => Seq::empty(),
        });
        proof {
            assert(ret@ =~= text2);
        }
        if let Some(t) = self.retry_time_secs {
            ret.append("RetryTime: ");
            let digits = i16_to_dec(t);
            ret.append(digits.as_str());
            ret.append("\r\n");
        }
        let ghost text3 = text2 + (match self@.retry_time_secs {
            Some(t) => retry_time_line(t),
            None => Seq::empty(),
        });
        proof {
            assert(ret@ =~= text3);
        }
        if let Some(a) = &self.account {
            ret.append("Account: ");
            ret.append(a.as_str());
            ret.append("\r\n");
        }
        proof {
            assert(ret@ =~= text3 + (match self@.account {
                Some(a) => account_line(a),
                None => Seq::empty(),
            }));
            assert(call_file_text(self@) == text3 + (match self@.account {
                Some(a) => account_line(a),
                None => Seq::empty(),
            }));
        }
        ret
    }
}

/// With no display name the identity renders as `<number>` and nothing
/// else.
pub proof fn lemma_caller_id_number_only(v: CallerIdView)
    requires
        v.name is None,
    ensures
        caller_id_text(v) == "<"@ + v.num + ">"@,
{
}

/// With a display name the identity renders as `'<name>' <number>`, a
/// single space between the closing quote and the opening angle bracket.
pub proof fn lemma_caller_id_with_name(v: CallerIdView, name: Seq<char>)
    requires
        v.name == Some(name),
    ensures
        caller_id_text(v) == "'"@ + name + "' <"@ + v.num + ">"@,
{
}

/// With only the required fields set, the call file text is exactly the
/// channel line followed by the caller-id line: two CR-LF terminated
/// lines, in that order, and no optional-field line.
pub proof fn lemma_minimum_call_file_two_lines(v: CallFileView)
    requires
        v.wait_time_secs is None,
        v.max_retries is None,
        v.retry_time_secs is None,
        v.account is None,
    ensures
        call_file_text(v) == channel_line(v.channel) + caller_id_line(v.caller_id),
{
    assert(call_file_text(v) =~= channel_line(v.channel) + caller_id_line(v.caller_id));
}

/// With every field set, the call file text is exactly the six lines in
/// their fixed order: channel, caller id, wait time, max retries, retry
/// time, account, each CR-LF terminated.
pub proof fn lemma_full_call_file_six_lines(
    v: CallFileView,
    wait: int,
    retries: int,
    retry_secs: int,
    account: Seq<char>,
)
    requires
        v.wait_time_secs == Some(wait),
        v.max_retries == Some(retries),
        v.retry_time_secs == Some(retry_secs),
        v.account == Some(account),
    ensures
        call_file_text(v) == channel_line(v.channel) + caller_id_line(v.caller_id)
            + wait_time_line(wait) + max_retries_line(retries) + retry_time_line(retry_secs)
            + account_line(account),
{
}

/// Whether a sequence ends in the carriage-return, line-feed pair.
pub open spec fn ends_with_crlf(s: Seq<char>) -> bool {
    s.len() >= 2 && s[s.len() - 2] == '\r' && s[s.len() - 1] == '\n'
}

/// Every line of the wire text is terminated by CR-LF.
pub proof fn lemma_each_line_ends_with_crlf(
    channel: Seq<char>,
    cid: CallerIdView,
    wait: int,
    retries: int,
    retry_secs: int,
    account: Seq<char>,
)
    ensures
        ends_with_crlf(channel_line(channel)),
        ends_with_crlf(caller_id_line(cid)),
        ends_with_crlf(wait_time_line(wait)),
        ends_with_crlf(max_retries_line(retries)),
        ends_with_crlf(retry_time_line(retry_secs)),
        ends_with_crlf(account_line(account)),
{
    reveal_strlit("\r\n");
    reveal_strlit("\"\r\n");
}

/// Serialization is idempotent: any two serializations of one unmodified
/// record are byte-identical, because the text is a pure function of the
/// record's view.
pub proof fn lemma_to_text_idempotent(v: CallFileView, first: Seq<char>, second: Seq<char>)
    requires
        first == call_file_text(v),
        second == call_file_text(v),
    ensures
        first == second,
{
}

} // verus!
