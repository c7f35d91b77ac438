//! The text form of a message: one line of six fields divided by `;`.

use super::message::{Command, Message, MessageView, PayloadType, PayloadView};
use super::text::{
    all_digits, decimal, digits_value, fields, has_no_separator, is_digit, is_trimmed,
    lemma_decimal, lemma_fields_have_no_separator, lemma_fields_join, lemma_fields_plain,
    lemma_parse_decimal, lemma_separator_makes_fields, lemma_trim_line, lemma_trimmed,
    parse_u32, push_decimal, read_u32, separator_count, split_fields, trim, trimmed,
};
use vstd::prelude::*;

verus! {

/// The text of the acknowledge flag.
pub open spec fn ack_text(ack: bool) -> Seq<char> {
    seq![
        if ack {
            '1'
        } else {
            '0'
        },
    ]
}

/// The line that carries `m`: node, sensor, command code, acknowledge flag,
/// type code and payload, each but the last followed by `;`, and a newline at
/// the end.
pub open spec fn encode_spec(m: MessageView) -> Seq<char> {
    decimal(m.node_id as nat) + seq![';'] + decimal(m.child_sensor_id as nat) + seq![';']
        + decimal(m.command.codes().0 as nat) + seq![';'] + ack_text(m.ack) + seq![';']
        + decimal(m.command.codes().1 as nat) + seq![';'] + m.payload.wire() + seq!['\n']
}

/// The message that a line carries, or `None` where the line is malformed:
/// where it has not exactly six fields, where one of the first five is no
/// unsigned number, or where the command and type codes name no command. The
/// acknowledge flag is set by any number but zero; the payload is read from
/// the last field without the white space around it.
pub open spec fn decode_spec(s: Seq<char>) -> Option<MessageView> {
    let f = fields(s);
    if f.len() != 6 {
        None
    } else {
        let numbers = (
            parse_u32(f[0]),
            parse_u32(f[1]),
            parse_u32(f[2]),
            parse_u32(f[3]),
            parse_u32(f[4]),
        );
        match numbers {
            (Some(node_id), Some(child_sensor_id), Some(cmd), Some(ack), Some(typ)) => {
                match Command::of_codes(cmd, typ) {
                    Some(command) => Some(
                        MessageView {
                            node_id,
                            child_sensor_id,
                            command,
                            ack: ack != 0,
                            payload: PayloadView::of_text(trimmed(f[5])),
                        },
                    ),
                    None => None,
                }
            },
            _ => None,
        }
    }
}

/// Writes a message as one line. The payload is written as it is: a string
/// with a `;` in it gives a line of too many fields, which `decode` refuses.
pub fn encode(msg: &Message) -> (line: String)
    ensures
        line@ == encode_spec(msg@),
{
    let (cmd, typ) = msg.command.encode();
    let ack = match msg.ack {
        true => "1",
        false => "0",
    };
    let payload = msg.payload.to_string();
    proof {
        reveal_strlit("1");
        reveal_strlit("0");
        reveal_strlit(";");
        reveal_strlit("\n");
        assert(";"@ =~= seq![';']);
        assert("\n"@ =~= seq!['\n']);
        assert(ack@ =~= ack_text(msg.ack));
    }
    let mut line = String::new();
    push_decimal(&mut line, msg.node_id);
    line.append(";");
    push_decimal(&mut line, msg.child_sensor_id);
    line.append(";");
    push_decimal(&mut line, cmd);
    line.append(";");
    line.append(ack);
    line.append(";");
    push_decimal(&mut line, typ);
    line.append(";");
    line.append(payload.as_str());
    line.append("\n");
    assert(line@ =~= encode_spec(msg@));
    line
}

/// A line that is no message, kept as it came.
#[derive(Debug)]
pub struct MalformedStringError {
    s: String,
}

impl View for MalformedStringError {
    type V = Seq<char>;

    closed spec fn view(&self) -> Seq<char> {
        self.s@
    }
}

impl MalformedStringError {
    pub fn new(s: &str) -> (e: MalformedStringError)
        ensures
            e@ == s@,
    {
        MalformedStringError { s: String::from_str(s) }
    }

    /// The report of this error: the words `Malformed string: ` and the line.
    pub fn to_string(&self) -> (r: String)
        ensures
            r@ == "Malformed string: "@ + self@,
    {
        String::from_str("Malformed string: ").concat(self.s.as_str())
    }

    pub fn description(&self) -> (r: &'static str)
        ensures
            r@ == "Malformed string"@,
    {
        "Malformed string"
    }
}

/// Reads one line as a message. A line that is none comes back whole in the
/// error.
pub fn decode(msg_str: &str) -> (res: Result<Message, MalformedStringError>)
    ensures
        match decode_spec(msg_str@) {
            Some(m) => res matches Ok(msg) && msg@ == m,
            None => res matches Err(e) && e@ == msg_str@,
        },
{
    if separator_count(msg_str) != 5 {
        return Err(MalformedStringError::new(msg_str));
    }
    let it = split_fields(msg_str);
    let node_id: u32 = match read_u32(it[0]) {
        Some(n) => n,
        None => return Err(MalformedStringError::new(msg_str)),
    };
    let child_sensor_id: u32 = match read_u32(it[1]) {
        Some(n) => n,
        None => return Err(MalformedStringError::new(msg_str)),
    };
    let cmd: u32 = match read_u32(it[2]) {
        Some(n) => n,
        None => return Err(MalformedStringError::new(msg_str)),
    };
    let ack: u32 = match read_u32(it[3]) {
        Some(n) => n,
        None => return Err(MalformedStringError::new(msg_str)),
    };
    let typ: u32 = match read_u32(it[4]) {
        Some(n) => n,
        None => return Err(MalformedStringError::new(msg_str)),
    };
    let pl = trim(it[5]);
    let command = match Command::decode((cmd, typ)) {
        Some(c) => c,
        None => return Err(MalformedStringError::new(msg_str)),
    };
    let payload = PayloadType::decode(pl);
    Ok(Message { node_id, child_sensor_id, command, ack: ack != 0, payload })
}

/// An integer payload is written without separator or white space, and its
/// text denotes it.
pub proof fn lemma_int_payload_is_plain(n: u32)
    ensures
        has_no_separator(PayloadView::Int(n).wire()),
        is_trimmed(PayloadView::Int(n).wire()),
        PayloadView::of_text(PayloadView::Int(n).wire()) == PayloadView::Int(n),
{
    lemma_decimal(n as nat);
    lemma_parse_decimal(n);
    let d = decimal(n as nat);
    assert(is_digit(d.first()) && is_digit(d.last()));
}

/// The fields of a message's line are those of its payload and newline behind
/// the five numbers.
proof fn lemma_fields_of_line(m: MessageView)
    ensures
        fields(encode_spec(m)) == seq![
            decimal(m.node_id as nat),
            decimal(m.child_sensor_id as nat),
            decimal(m.command.codes().0 as nat),
            ack_text(m.ack),
            decimal(m.command.codes().1 as nat),
        ] + fields(m.payload.wire().push('\n')),
{
    let sep = seq![';'];
    let node = decimal(m.node_id as nat);
    let child = decimal(m.child_sensor_id as nat);
    let cmd = decimal(m.command.codes().0 as nat);
    let ack = ack_text(m.ack);
    let typ = decimal(m.command.codes().1 as nat);
    let last = m.payload.wire().push('\n');
    let tail4 = typ + sep + last;
    let tail3 = ack + sep + tail4;
    let tail2 = cmd + sep + tail3;
    let tail1 = child + sep + tail2;
    assert(encode_spec(m) =~= node + sep + tail1);
    lemma_decimal(m.node_id as nat);
    lemma_decimal(m.child_sensor_id as nat);
    lemma_decimal(m.command.codes().0 as nat);
    lemma_decimal(m.command.codes().1 as nat);
    lemma_fields_plain(node);
    lemma_fields_plain(child);
    lemma_fields_plain(cmd);
    lemma_fields_plain(ack);
    lemma_fields_plain(typ);
    lemma_fields_join(typ, last);
    lemma_fields_join(ack, tail4);
    lemma_fields_join(cmd, tail3);
    lemma_fields_join(child, tail2);
    lemma_fields_join(node, tail1);
    assert(fields(encode_spec(m)) =~= seq![node, child, cmd, ack, typ] + fields(last));
}

/// A message is read back from the line that carries it, where its payload
/// is written without separator and without white space at its ends, and is
/// what its own text denotes.
pub proof fn lemma_round_trip(m: MessageView)
    requires
        has_no_separator(m.payload.wire()),
        is_trimmed(m.payload.wire()),
        PayloadView::of_text(m.payload.wire()) == m.payload,
    ensures
        decode_spec(encode_spec(m)) == Some(m),
{
    let last = m.payload.wire().push('\n');
    let ack = ack_text(m.ack);
    lemma_fields_of_line(m);
    lemma_fields_plain(last);
    assert(fields(encode_spec(m)) =~= seq![
        decimal(m.node_id as nat),
        decimal(m.child_sensor_id as nat),
        decimal(m.command.codes().0 as nat),
        ack,
        decimal(m.command.codes().1 as nat),
        last,
    ]);
    lemma_parse_decimal(m.node_id);
    lemma_parse_decimal(m.child_sensor_id);
    lemma_parse_decimal(m.command.codes().0);
    lemma_parse_decimal(m.command.codes().1);
    assert(parse_u32(ack) == Some(
        if m.ack {
            1u32
        } else {
            0u32
        },
    )) by {
        assert(ack.drop_last() =~= Seq::<char>::empty());
        assert(digits_value(ack.drop_last()) == 0);
        assert(all_digits(ack));
    }
    m.command.lemma_codes_round_trip();
    lemma_trim_line(m.payload.wire());
}

/// The line of a message whose payload is written with a `;` in it is
/// refused.
pub proof fn lemma_separator_in_payload_is_refused(m: MessageView)
    requires
        !has_no_separator(m.payload.wire()),
    ensures
        decode_spec(encode_spec(m)) is None,
{
    let last = m.payload.wire().push('\n');
    lemma_fields_of_line(m);
    let i = choose|i: int| 0 <= i < m.payload.wire().len() && m.payload.wire()[i] == ';';
    assert(last[i] == ';');
    lemma_separator_makes_fields(last);
}

/// A message that was read from a line is read again from the line that
/// carries it.
pub proof fn lemma_decoded_round_trips(s: Seq<char>)
    requires
        decode_spec(s) is Some,
    ensures
        decode_spec(encode_spec(decode_spec(s)->Some_0)) == decode_spec(s),
{
    let m = decode_spec(s)->Some_0;
    let text = trimmed(fields(s)[5]);
    lemma_fields_have_no_separator(s);
    lemma_trimmed(fields(s)[5]);
    match m.payload {
        PayloadView::Int(n) => lemma_int_payload_is_plain(n),
        _ => {
            assert(m.payload.wire() == text);
        },
    }
    lemma_round_trip(m);
}

} // verus!
