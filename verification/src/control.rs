//! The control protocol: command frames, the commands in them, and the
//! parameters of a command.
//!
//! A frame ends with a group separator. Its text is a command word, a record
//! separator, and parameters: records between record separators, each of
//! them a key, a unit separator and a value.

use crate::error::Error;
use crate::flow::Feedback;
use crate::text::{
    chars_of, parse_number, parse_unsigned, slice, split, split_spans, starts_with, str_eq,
};
use vstd::prelude::*;
use vstd::string::StringExecFns;
use vstd::string::StringSliceAdditionalSpecFns;
use vstd::utf8::{decode_utf8, encode_utf8_decode_utf8, encode_utf8_valid_utf8, valid_utf8};

verus! {

/// ASCII group separator
pub const SEP_GROUP: u8 = 0x1D;

/// ASCII record separator
pub const SEP_RECORD: char = '\u{1E}';

/// ASCII unit separator
pub const SEP_UNIT: char = '\u{1F}';

/// The key and the value of a record, if the record is made of exactly the
/// two.
pub open spec fn record_pair(record: Seq<char>) -> Option<(Seq<char>, Seq<char>)> {
    let fields = split(record, SEP_UNIT);
    if fields.len() == 2 {
        Some((fields[0], fields[1]))
    } else {
        None
    }
}

/// The value that a record gives to a key: the record is the key, a unit
/// separator and the value, and nothing more.
pub open spec fn record_value(record: Seq<char>, key: Seq<char>) -> Option<Seq<char>> {
    match record_pair(record) {
        Some((k, v)) => if k == key {
            Some(v)
        } else {
            None
        },
        None => None,
    }
}

/// The keys and values of some records, in the order of the records, if
/// every record is made of a key and a value.
pub open spec fn record_pairs(records: Seq<Seq<char>>) -> Option<Seq<(Seq<char>, Seq<char>)>>
    decreases records.len(),
{
    if records.len() == 0 {
        Some(Seq::empty())
    } else {
        match (record_pair(records[0]), record_pairs(records.skip(1))) {
            (Some(p), Some(rest)) => Some(seq![p] + rest),
            _ => None,
        }
    }
}

/// The value of the first field under a key.
pub open spec fn lookup(fields: Seq<(Seq<char>, Seq<char>)>, key: Seq<char>) -> Option<
    Seq<char>,
>
    decreases fields.len(),
{
    if fields.len() == 0 {
        None
    } else if fields[0].0 == key {
        Some(fields[0].1)
    } else {
        lookup(fields.skip(1), key)
    }
}

/// The value that the first record that has one gives to a key.
pub open spec fn first_value(records: Seq<Seq<char>>, key: Seq<char>) -> Option<Seq<char>>
    decreases records.len(),
{
    if records.len() == 0 {
        None
    } else {
        match record_value(records[0], key) {
            Some(v) => Some(v),
            None => first_value(records.skip(1), key),
        }
    }
}

/// To look a key up among the fields of some records is to take the value
/// of the first record that gives it one.
pub proof fn lemma_lookup_first_value(records: Seq<Seq<char>>, key: Seq<char>)
    ensures
        record_pairs(records) matches Some(fields) ==> lookup(fields, key) == first_value(
            records,
            key,
        ),
    decreases records.len(),
{
    if records.len() > 0 {
        let rest = records.skip(1);
        lemma_lookup_first_value(rest, key);
        match (record_pair(records[0]), record_pairs(rest)) {
            (Some(p), Some(fields)) => {
                let all = seq![p] + fields;
                assert(all[0] == p);
                assert(all.skip(1) =~= fields);
            },
            _ => {},
        }
    }
}

/// What the text of some parameters says: the keys and values of its
/// records. An empty text holds no parameters. A record that is not made of
/// a key and a value spoils the parameters as a whole.
pub open spec fn parameters_of(text: Seq<char>) -> Option<Seq<(Seq<char>, Seq<char>)>> {
    if text.len() == 0 {
        Some(Seq::empty())
    } else {
        record_pairs(split(text, SEP_RECORD))
    }
}

/// Get the value of one parameter
pub fn param_value<'a>(params: &'a str, key: &str) -> (r: Option<&'a str>)
    ensures
        match record_value(params@, key@) {
            Some(v) => r matches Some(x) && x@ == v,
            None => r is None,
        },
{
    let chars = chars_of(params);
    let p = split_spans(&chars, SEP_UNIT);
    if p.len() == 2 {
        let k = slice(params, p[0]);
        if str_eq(k, key) {
            return Some(slice(params, p[1]));
        }
    }
    None
}

/// Command parameters
#[derive(Clone, Debug, PartialEq, Eq)]
pub struct Parameters {
    fields: Vec<(String, String)>,
}

/// Fields as plain values.
pub open spec fn field_views(fields: Seq<(String, String)>) -> Seq<(Seq<char>, Seq<char>)> {
    Seq::new(fields.len(), |i: int| (fields[i].0@, fields[i].1@))
}

impl View for Parameters {
    type V = Seq<(Seq<char>, Seq<char>)>;

    closed spec fn view(&self) -> Seq<(Seq<char>, Seq<char>)> {
        field_views(self.fields@)
    }
}

impl Parameters {
    /// No parameters
    pub fn new() -> (r: Self)
        ensures
            r@ == Seq::<(Seq<char>, Seq<char>)>::empty(),
    {
        let r = Parameters { fields: Vec::new() };
        assert(r@ =~= Seq::empty());
        r
    }

    /// Add a parameter after those that are there
    pub fn with(self, key: &str, value: &str) -> (r: Self)
        ensures
            r@ == self@.push((key@, value@)),
    {
        let mut r = self;
        r.fields.push((String::from_str(key), String::from_str(value)));
        assert(r@ =~= self@.push((key@, value@)));
        r
    }

    /// Read the parameters of a command. A record with a missing value or
    /// with more than one unit separator is an error of all of them.
    pub fn parse(text: &str) -> (r: Result<Self, Error>)
        ensures
            match parameters_of(text@) {
                Some(fields) => r matches Ok(p) && p@ == fields,
                None => r == Err::<Self, Error>(Error::Other("Invalid parameter")),
            },
    {
        let mut fields: Vec<(String, String)> = Vec::new();
        assert(field_views(fields@) =~= Seq::empty());
        if text.is_empty() {
            return Ok(Parameters { fields });
        }
        let chars = chars_of(text);
        let records = split_spans(&chars, SEP_RECORD);
        let ghost all = split(text@, SEP_RECORD);
        let mut i: usize = 0;
        assert(all.skip(0) =~= all);
        while i < records.len()
            invariant
                chars@ == text@,
                text@.len() > 0,
                all == split(text@, SEP_RECORD),
                i <= records@.len() == all.len(),
                forall|k: int| 0 <= k < records@.len() ==> (#[trigger] records@[k]).within(chars@),
                forall|k: int|
                    0 <= k < records@.len() ==> (#[trigger] records@[k]).of(chars@) == all[k],
                record_pairs(all) == (match record_pairs(all.skip(i as int)) {
                    Some(rest) => Some(field_views(fields@) + rest),
                    None => None,
                }),
            decreases records.len() - i,
        {
            let record = slice(text, records[i]);
            let ghost rest = all.skip(i as int);
            assert(rest[0] == record@);
            assert(rest.skip(1) =~= all.skip(i + 1));
            let units = chars_of(record);
            let p = split_spans(&units, SEP_UNIT);
            let ghost before = field_views(fields@);
            if p.len() != 2 {
                assert(record_pair(rest[0]) is None);
                assert(record_pairs(rest) is None);
                return Err(Error::Other("Invalid parameter"));
            }
            let key = slice(record, p[0]);
            let value = slice(record, p[1]);
            fields.push((String::from_str(key), String::from_str(value)));
            proof {
                assert(field_views(fields@) =~= before.push((key@, value@)));
                if let Some(tail) = record_pairs(all.skip(i + 1)) {
                    assert(before + (seq![(key@, value@)] + tail) =~= before.push((key@, value@))
                        + tail);
                }
            }
            i += 1;
        }
        assert(field_views(fields@) + Seq::<(Seq<char>, Seq<char>)>::empty() =~= field_views(
            fields@,
        ));
        Ok(Parameters { fields })
    }

    /// Get the value of a command parameter
    pub fn value(&self, key: &str) -> (r: Option<&str>)
        ensures
            match lookup(self@, key@) {
                Some(v) => r matches Some(x) && x@ == v,
                None => r is None,
            },
    {
        let mut i: usize = 0;
        assert(self@.skip(0) =~= self@);
        while i < self.fields.len()
            invariant
                i <= self.fields@.len(),
                self@.len() == self.fields@.len(),
                lookup(self@, key@) == lookup(self@.skip(i as int), key@),
            decreases self.fields.len() - i,
        {
            let ghost rest = self@.skip(i as int);
            assert(rest[0] == self@[i as int]);
            assert(rest.skip(1) =~= self@.skip(i + 1));
            if str_eq(self.fields[i].0.as_str(), key) {
                return Some(self.fields[i].1.as_str());
            }
            i += 1;
        }
        None
    }
}

/// A command of the control protocol
#[derive(Clone, Debug, PartialEq, Eq)]
pub enum Command {
    /// Set parameters of one flow
    Flow(Parameters),
    /// Set global parameters
    Config(Parameters),
}

/// The text of the parameters of a command that begins with `word` and a
/// record separator.
pub open spec fn command_params(cmd: Seq<char>, word: Seq<char>) -> Option<Seq<char>> {
    if (word + seq![SEP_RECORD]).is_prefix_of(cmd) {
        Some(cmd.skip(word.len() + 1 as int))
    } else {
        None
    }
}

/// What a command says: for which of the two kinds of command it is, and
/// with which parameters.
pub open spec fn command(cmd: Seq<char>) -> Result<(bool, Seq<(Seq<char>, Seq<char>)>), Error> {
    let text = match command_params(cmd, "flow"@) {
        Some(text) => Some((true, text)),
        None => match command_params(cmd, "config"@) {
            Some(text) => Some((false, text)),
            None => None,
        },
    };
    match text {
        None => Err(Error::Other("Invalid command")),
        Some((flow, text)) => match parameters_of(text) {
            Some(fields) => Ok((flow, fields)),
            None => Err(Error::Other("Invalid parameter")),
        },
    }
}

/// Process a remote command
///
/// Tells a flow command from a config command, and reads its parameters.
/// A command of another kind is an error, and so is one with a parameter
/// that is not a key and a value: nothing is to be done for it.
pub fn process_command(cmd: &str) -> (r: Result<Command, Error>)
    ensures
        match command(cmd@) {
            Ok((true, fields)) => r matches Ok(Command::Flow(p)) && p@ == fields,
            Ok((false, fields)) => r matches Ok(Command::Config(p)) && p@ == fields,
            Err(e) => r matches Err(x) && x == e,
        },
{
    proof {
        reveal_strlit("flow\u{1E}");
        reveal_strlit("config\u{1E}");
        reveal_strlit("flow");
        reveal_strlit("config");
        assert("flow\u{1E}"@ =~= "flow"@ + seq![SEP_RECORD]);
        assert("config\u{1E}"@ =~= "config"@ + seq![SEP_RECORD]);
    }
    let len = cmd.unicode_len();
    if starts_with(cmd, "flow\u{1E}") {
        let params = cmd.substring_char(5, len);
        assert(params@ =~= cmd@.skip(5));
        match Parameters::parse(params) {
            Ok(params) => Ok(Command::Flow(params)),
            Err(e) => Err(e),
        }
    } else if starts_with(cmd, "config\u{1E}") {
        let params = cmd.substring_char(7, len);
        assert(params@ =~= cmd@.skip(7));
        match Parameters::parse(params) {
            Ok(params) => Ok(Command::Config(params)),
            Err(e) => Err(e),
        }
    } else {
        Err(Error::Other("Invalid command"))
    }
}

/// The text of a frame as it was read, its ending included: nothing at the
/// end of the input, and otherwise the text before the group separator.
pub open spec fn frame(bytes: Seq<u8>) -> Result<Option<Seq<char>>, Error> {
    if bytes.len() == 0 {
        Ok(None)
    } else if bytes.last() != SEP_GROUP {
        Err(Error::Other("Invalid command separator"))
    } else if !valid_utf8(bytes.drop_last()) {
        Err(Error::InvalidUtf8())
    } else {
        Ok(Some(decode_utf8(bytes.drop_last())))
    }
}

/// Takes the text out of a frame that was read up to and including its
/// group separator.
pub fn frame_text(bytes: &Vec<u8>) -> (r: Result<Option<String>, Error>)
    ensures
        match frame(bytes@) {
            Ok(Some(text)) => r matches Ok(Some(s)) && s@ == text,
            Ok(None) => r matches Ok(None),
            Err(e) => r matches Err(x) && x == e,
        },
{
    let n = bytes.len();
    if n == 0 {
        return Ok(None);
    }
    if bytes[n - 1] != SEP_GROUP {
        return Err(Error::Other("Invalid command separator"));
    }
    let body = vstd::slice::slice_subrange(bytes.as_slice(), 0, n - 1);
    assert(body@ =~= bytes@.drop_last());
    match text_of(body) {
        Some(text) => {
            proof {
                encode_utf8_valid_utf8(text@);
                encode_utf8_decode_utf8(text@);
            }
            Ok(Some(String::from_str(text)))
        },
        None => Err(Error::InvalidUtf8()),
    }
}

/// The string slice that lies in some bytes.
///
/// Calls `std::str::from_utf8`: it gives a string slice over the very bytes
/// it is handed, and gives one exactly when the bytes are valid UTF-8.
#[verifier::external_body]
fn text_of(bytes: &[u8]) -> (r: Option<&str>)
    ensures
        match r {
            Some(s) => s.spec_bytes() == bytes@,
            None => !valid_utf8(bytes@),
        },
{
    match std::str::from_utf8(bytes) {
        Ok(s) => Some(s),
        Err(_) => None,
    }
}

/// What is to be done with a frame
#[derive(Clone, Debug, PartialEq, Eq)]
pub enum FrameAction {
    /// Carry the command out
    Run(Command),
    /// Pass the frame over: its command is at fault, the connection is not
    Skip(Error),
    /// Close the connection: the frame is no frame
    Close(Error),
    /// The input is at its end
    End,
}

/// Decides what is to be done with a frame that was read up to and
/// including its group separator.
///
/// A frame that lacks its separator or is not UTF-8 closes the connection.
/// A command of an unknown kind, or with a parameter that is not a key and a
/// value, is passed over, and the connection stays open for the next frame.
pub fn frame_action(bytes: &Vec<u8>) -> (r: FrameAction)
    ensures
        match frame(bytes@) {
            Ok(None) => r is End,
            Err(e) => r == FrameAction::Close(e),
            Ok(Some(text)) => match command(text) {
                Ok((true, fields)) => r matches FrameAction::Run(Command::Flow(p)) && p@ == fields,
                Ok((false, fields)) => r matches FrameAction::Run(Command::Config(p)) && p@
                    == fields,
                Err(e) => r == FrameAction::Skip(e),
            },
        },
{
    match frame_text(bytes) {
        Ok(None) => FrameAction::End,
        Err(e) => FrameAction::Close(e),
        Ok(Some(text)) => match process_command(text.as_str()) {
            Ok(command) => FrameAction::Run(command),
            Err(e) => FrameAction::Skip(e),
        },
    }
}

/// Check if an argument is parseable
///
/// An empty argument passes; any other has to be an unsigned number of at
/// most `max`.
pub fn is_parseable(value: String, max: u64) -> (r: Result<(), String>)
    ensures
        r is Ok <==> (value@.len() == 0 || parse_unsigned(value@, max as nat) is Some),
        r matches Err(e) ==> e@ == "Invalid argument"@,
{
    if value.as_str().unicode_len() == 0 {
        return Ok(());
    }
    match parse_number(value.as_str(), max) {
        Some(_) => Ok(()),
        None => Err(String::from_str("Invalid argument")),
    }
}

/// Check if flow index is valid
///
/// An empty argument passes; any other has to be the index of one of the
/// `n_flows` flows.
pub fn check_flow_idx(n_flows: usize, value: String) -> (r: Result<(), String>)
    ensures
        value@.len() == 0 ==> r is Ok,
        value@.len() > 0 ==> match parse_unsigned(value@, usize::MAX as nat) {
            Some(f) => if f < n_flows {
                r is Ok
            } else {
                r matches Err(e) && e@ == "Flow index out of bounds"@
            },
            None => r matches Err(e) && e@ == "Invalid argument"@,
        },
{
    if value.as_str().unicode_len() == 0 {
        return Ok(());
    }
    match parse_number(value.as_str(), usize::MAX as u64) {
        Some(f) => {
            if f < n_flows as u64 {
                Ok(())
            } else {
                Err(String::from_str("Flow index out of bounds"))
            }
        },
        None => Err(String::from_str("Invalid argument")),
    }
}

/// The number of flags that are set.
pub open spec fn count_set(flags: Seq<bool>) -> nat
    decreases flags.len(),
{
    if flags.len() == 0 {
        0
    } else {
        count_set(flags.drop_last()) + if flags.last() {
            1nat
        } else {
            0nat
        }
    }
}

/// Which flows play, after an event: a flow plays from the event that says
/// so to the event that says it stopped. An event of a flow that is not
/// among the flags changes nothing.
pub open spec fn flags_after(playing: Seq<bool>, event: Feedback) -> Seq<bool> {
    match event {
        Feedback::Playing(idx) => if idx < playing.len() {
            playing.update(idx as int, true)
        } else {
            playing
        },
        Feedback::Stopped(idx) => if idx < playing.len() {
            playing.update(idx as int, false)
        } else {
            playing
        },
        Feedback::Stats(_, _, _, _) => playing,
    }
}

/// Keep track of which flows play
pub fn track_flows(playing: &mut Vec<bool>, event: Feedback)
    ensures
        final(playing)@ == flags_after(old(playing)@, event),
{
    match event {
        Feedback::Playing(idx) => {
            if idx < playing.len() {
                playing.set(idx, true);
            }
        },
        Feedback::Stopped(idx) => {
            if idx < playing.len() {
                playing.set(idx, false);
            }
        },
        Feedback::Stats(_, _, _, _) => {},
    }
}

/// Count playing and stopped flows
pub fn count_flows(playing: &Vec<bool>) -> (r: (usize, usize))
    ensures
        r.0 == count_set(playing@),
        r.0 + r.1 == playing@.len(),
{
    let mut n_playing: usize = 0;
    let mut i: usize = 0;
    assert(playing@.take(0) =~= Seq::empty());
    while i < playing.len()
        invariant
            i <= playing.len(),
            n_playing == count_set(playing@.take(i as int)),
            n_playing <= i,
        decreases playing.len() - i,
    {
        assert(playing@.take(i + 1).drop_last() =~= playing@.take(i as int));
        if playing[i] {
            n_playing += 1;
        }
        i += 1;
    }
    assert(playing@.take(i as int) =~= playing@);
    (n_playing, playing.len() - n_playing)
}

} // verus!
