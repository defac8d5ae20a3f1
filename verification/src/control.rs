//! The application-layer control field of a fragment — FIR, FIN, CON, UNS and
//! the 4-bit sequence number — together with its byte encoding, the response
//! header, and the formatting of requests and confirmations.

use vstd::prelude::*;
use crate::error::ParseError;

verus! {

/// Function code of a confirmation.
pub const FUNCTION_CONFIRM: u8 = 0x00;

/// Function code of a read request.
pub const FUNCTION_READ: u8 = 0x01;

/// Function code of a solicited response.
pub const FUNCTION_RESPONSE: u8 = 0x81;

/// Function code of an unsolicited response.
pub const FUNCTION_UNSOLICITED_RESPONSE: u8 = 0x82;

/// The control bits carried by every application-layer fragment.
#[derive(Copy, Clone, PartialEq, Eq, Structural, Debug)]
pub struct Control {
    /// First fragment of a response.
    pub fir: bool,
    /// Final fragment of a response.
    pub fin: bool,
    /// The sender requests a confirmation of this fragment.
    pub con: bool,
    /// The fragment is unsolicited.
    pub uns: bool,
    /// The echoed 4-bit sequence number.
    pub seq: u8,
}

impl Control {
    pub open spec fn wf(self) -> bool {
        self.seq < 16
    }

    /// The control field decoded from its byte encoding.
    pub open spec fn from_byte_spec(b: u8) -> Control {
        Control {
            fir: b & 0x80 != 0,
            fin: b & 0x40 != 0,
            con: b & 0x20 != 0,
            uns: b & 0x10 != 0,
            seq: b & 0x0f,
        }
    }

    /// The byte encoding of the control field.
    pub open spec fn to_byte_spec(self) -> u8 {
        (if self.fir { 0x80u8 } else { 0u8 }) | (if self.fin { 0x40u8 } else { 0u8 })
            | (if self.con { 0x20u8 } else { 0u8 }) | (if self.uns { 0x10u8 } else { 0u8 })
            | self.seq
    }

    pub fn from_byte(b: u8) -> (r: Control)
        ensures
            r == Control::from_byte_spec(b),
            r.wf(),
    {
        proof {
            assert(b & 0x0f < 16) by (bit_vector);
        }
        Control {
            fir: b & 0x80 != 0,
            fin: b & 0x40 != 0,
            con: b & 0x20 != 0,
            uns: b & 0x10 != 0,
            seq: b & 0x0f,
        }
    }

    pub fn to_byte(&self) -> (r: u8)
        ensures
            r == self.to_byte_spec(),
    {
        (if self.fir { 0x80u8 } else { 0u8 }) | (if self.fin { 0x40u8 } else { 0u8 })
            | (if self.con { 0x20u8 } else { 0u8 }) | (if self.uns { 0x10u8 } else { 0u8 })
            | self.seq
    }

    /// The control field of an outgoing single-fragment request.
    pub open spec fn request_spec(seq: u8) -> Control {
        Control { fir: true, fin: true, con: false, uns: false, seq }
    }

    pub fn request(seq: u8) -> (r: Control)
        requires
            seq < 16,
        ensures
            r == Control::request_spec(seq),
            r.wf(),
    {
        Control { fir: true, fin: true, con: false, uns: false, seq }
    }

    /// True when the fragment is self-contained: both first and final.
    pub fn is_fir_and_fin(&self) -> (r: bool)
        ensures
            r == (self.fir && self.fin),
    {
        self.fir && self.fin
    }

    /// Decoding a well-formed field's encoding gives the field back.
    pub proof fn lemma_byte_round_trip(self)
        requires
            self.wf(),
        ensures
            Control::from_byte_spec(self.to_byte_spec()) == self,
    {
        let b = self.to_byte_spec();
        let fir = self.fir;
        let fin = self.fin;
        let con = self.con;
        let uns = self.uns;
        let seq = self.seq;
        assert({
            let e = (if fir { 0x80u8 } else { 0u8 }) | (if fin { 0x40u8 } else { 0u8 })
                | (if con { 0x20u8 } else { 0u8 }) | (if uns { 0x10u8 } else { 0u8 }) | seq;
            seq < 16 ==> ((e & 0x80 != 0) == fir && (e & 0x40 != 0) == fin && (e & 0x20 != 0)
                == con && (e & 0x10 != 0) == uns && e & 0x0f == seq)
        }) by (bit_vector);
    }
}

/// The header of a parsed response fragment.
#[derive(Copy, Clone, PartialEq, Eq, Structural, Debug)]
pub struct ResponseHeader {
    /// The fragment's control bits.
    pub control: Control,
    /// True when the fragment is an unsolicited response.
    pub unsolicited: bool,
    /// First internal-indications byte.
    pub iin1: u8,
    /// Second internal-indications byte.
    pub iin2: u8,
}

impl ResponseHeader {
    pub open spec fn wf(self) -> bool {
        self.control.wf()
    }
}

/// A response fragment has a four-byte header — control, function, and two
/// internal-indication bytes — and carries a response function code.
pub open spec fn response_parse_ok(data: Seq<u8>) -> bool {
    &&& data.len() >= 4
    &&& (data[1] == FUNCTION_RESPONSE || data[1] == FUNCTION_UNSOLICITED_RESPONSE)
}

/// The header encoded by a parseable fragment.
pub open spec fn response_header_spec(data: Seq<u8>) -> ResponseHeader {
    ResponseHeader {
        control: Control::from_byte_spec(data[0]),
        unsolicited: data[1] == FUNCTION_UNSOLICITED_RESPONSE,
        iin1: data[2],
        iin2: data[3],
    }
}

/// The object payload region of a fragment: everything after the header.
pub open spec fn response_objects_spec(data: Seq<u8>) -> Seq<u8> {
    data.skip(4)
}

/// A response fragment parsed from one received frame: its header, and the
/// raw object payload region whose decoding the task performs.
#[derive(Debug)]
pub struct Response<'a> {
    /// The fragment's header.
    pub header: ResponseHeader,
    /// The undecoded object payload.
    pub objects: &'a [u8],
}

impl<'a> Response<'a> {
    /// Parses one application-layer fragment.  Fails on a fragment shorter
    /// than the four-byte response header, or on a function code that is not
    /// a response; says which.
    pub fn parse(data: &'a [u8]) -> (r: Result<Response<'a>, ParseError>)
        ensures
            r is Ok <==> response_parse_ok(data@),
            r matches Ok(resp) ==> {
                &&& resp.header == response_header_spec(data@)
                &&& resp.header.wf()
                &&& resp.objects@ == response_objects_spec(data@)
            },
            r matches Err(e) ==> (e == if data@.len() < 4 {
                ParseError::InsufficientBytes
            } else {
                ParseError::UnexpectedFunction
            }),
    {
        if data.len() < 4 {
            return Err(ParseError::InsufficientBytes);
        }
        let function = *vstd::slice::slice_index_get(data, 1);
        if function != FUNCTION_RESPONSE && function != FUNCTION_UNSOLICITED_RESPONSE {
            return Err(ParseError::UnexpectedFunction);
        }
        let control = Control::from_byte(*vstd::slice::slice_index_get(data, 0));
        let iin1 = *vstd::slice::slice_index_get(data, 2);
        let iin2 = *vstd::slice::slice_index_get(data, 3);
        let objects = vstd::slice::slice_subrange(data, 4, data.len());
        Ok(
            Response {
                header: ResponseHeader {
                    control,
                    unsolicited: function == FUNCTION_UNSOLICITED_RESPONSE,
                    iin1,
                    iin2,
                },
                objects,
            },
        )
    }
}

/// The two bytes of a solicited confirmation echoing `seq`.
pub open spec fn confirm_solicited_data(seq: u8) -> Seq<u8> {
    seq![Control { fir: true, fin: true, con: false, uns: false, seq }.to_byte_spec(), FUNCTION_CONFIRM]
}

/// The two bytes of an unsolicited confirmation echoing `seq`.
pub open spec fn confirm_unsolicited_data(seq: u8) -> Seq<u8> {
    seq![Control { fir: true, fin: true, con: false, uns: true, seq }.to_byte_spec(), FUNCTION_CONFIRM]
}

/// Formats a solicited confirmation: a self-contained confirm fragment
/// echoing the sequence number of the fragment being confirmed.
pub fn confirm_solicited(seq: u8) -> (r: Vec<u8>)
    requires
        seq < 16,
    ensures
        r@ == confirm_solicited_data(seq),
{
    let control = Control { fir: true, fin: true, con: false, uns: false, seq };
    let mut data: Vec<u8> = Vec::new();
    data.push(control.to_byte());
    data.push(FUNCTION_CONFIRM);
    proof {
        assert(data@ =~= confirm_solicited_data(seq));
    }
    data
}

/// Formats an unsolicited confirmation: as the solicited one, with the UNS
/// bit set.
pub fn confirm_unsolicited(seq: u8) -> (r: Vec<u8>)
    requires
        seq < 16,
    ensures
        r@ == confirm_unsolicited_data(seq),
{
    let control = Control { fir: true, fin: true, con: false, uns: true, seq };
    let mut data: Vec<u8> = Vec::new();
    data.push(control.to_byte());
    data.push(FUNCTION_CONFIRM);
    proof {
        assert(data@ =~= confirm_unsolicited_data(seq));
    }
    data
}

} // verus!
