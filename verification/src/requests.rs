//! The messages a client sends, and the encoders of their bodies.
use vstd::prelude::*;
use vstd::utf8::encode_utf8;

use crate::types::{Compression, CqlVersion, ToCql};
use crate::wire::{
    i32_be, same_text, short_string, short_string_round_trip, string_map_decoding,
    string_pairs_from, u16_be, u16_round_trip, write_bytes, write_i32, write_u16,
};
use crate::{Serialize, WireError};

verus! {

/// Appends `s` as a short string and returns the number of bytes written,
/// two more than the string has. A string whose length does not fit the
/// 16-bit prefix has no encoding: `buf` stays as it was.
pub fn write_str(s: &str, buf: &mut Vec<u8>) -> (r: Result<usize, WireError>)
    ensures
        encode_utf8(s@).len() <= 0xFFFF ==> r == Ok::<usize, WireError>(
            (2 + encode_utf8(s@).len()) as usize,
        ) && final(buf)@ == old(buf)@ + short_string(s@),
        encode_utf8(s@).len() > 0xFFFF ==> r == Err::<usize, WireError>(WireError::Overflow)
            && final(buf)@ == old(buf)@,
{
    let bytes = s.as_bytes();
    let n: usize = bytes.len();
    if n > 0xFFFF {
        return Err(WireError::Overflow);
    }
    write_u16(buf, n as u16);
    write_bytes(buf, bytes);
    assert(buf@ =~= old(buf)@ + short_string(s@));
    Ok(2 + n)
}

/// How many replicas must answer before a query counts as done.
#[derive(Debug, Clone, Copy, PartialEq, Eq, Structural)]
pub enum Consistency {
    Any,
    One,
    Two,
    Three,
    Quorum,
    All,
    LocalQuorum,
    EachQuorum,
    Serial,
    LocalSerial,
    LocalOne,
}

impl Consistency {
    /// The 16-bit wire code of a level.
    pub open spec fn code(self) -> u16 {
        match self {
            Consistency::Any => 0x0000,
            Consistency::One => 0x0001,
            Consistency::Two => 0x0002,
            Consistency::Three => 0x0003,
            Consistency::Quorum => 0x0004,
            Consistency::All => 0x0005,
            Consistency::LocalQuorum => 0x0006,
            Consistency::EachQuorum => 0x0007,
            Consistency::Serial => 0x0008,
            Consistency::LocalSerial => 0x0009,
            Consistency::LocalOne => 0x000A,
        }
    }

    /// The level that a wire code stands for, if any.
    pub open spec fn of_code(code: u16) -> Result<Consistency, WireError> {
        if code == 0x0000 {
            Ok(Consistency::Any)
        } else if code == 0x0001 {
            Ok(Consistency::One)
        } else if code == 0x0002 {
            Ok(Consistency::Two)
        } else if code == 0x0003 {
            Ok(Consistency::Three)
        } else if code == 0x0004 {
            Ok(Consistency::Quorum)
        } else if code == 0x0005 {
            Ok(Consistency::All)
        } else if code == 0x0006 {
            Ok(Consistency::LocalQuorum)
        } else if code == 0x0007 {
            Ok(Consistency::EachQuorum)
        } else if code == 0x0008 {
            Ok(Consistency::Serial)
        } else if code == 0x0009 {
            Ok(Consistency::LocalSerial)
        } else if code == 0x000A {
            Ok(Consistency::LocalOne)
        } else {
            Err(WireError::ProtocolViolation(code as i32))
        }
    }

    /// The 16-bit wire code of this level.
    pub fn to_code(self) -> (r: u16)
        ensures
            r == self.code(),
    {
        match self {
            Consistency::Any => 0x0000,
            Consistency::One => 0x0001,
            Consistency::Two => 0x0002,
            Consistency::Three => 0x0003,
            Consistency::Quorum => 0x0004,
            Consistency::All => 0x0005,
            Consistency::LocalQuorum => 0x0006,
            Consistency::EachQuorum => 0x0007,
            Consistency::Serial => 0x0008,
            Consistency::LocalSerial => 0x0009,
            Consistency::LocalOne => 0x000A,
        }
    }

    /// Recognizes a wire code; a code that names no level is a protocol
    /// violation that carries the code.
    pub fn from_code(code: u16) -> (r: Result<Consistency, WireError>)
        ensures
            r == Self::of_code(code),
    {
        match code {
            0x0000 => Ok(Consistency::Any),
            0x0001 => Ok(Consistency::One),
            0x0002 => Ok(Consistency::Two),
            0x0003 => Ok(Consistency::Three),
            0x0004 => Ok(Consistency::Quorum),
            0x0005 => Ok(Consistency::All),
            0x0006 => Ok(Consistency::LocalQuorum),
            0x0007 => Ok(Consistency::EachQuorum),
            0x0008 => Ok(Consistency::Serial),
            0x0009 => Ok(Consistency::LocalSerial),
            0x000A => Ok(Consistency::LocalOne),
            _ => Err(WireError::ProtocolViolation(code as i32)),
        }
    }
}

/// Every level is found again from its wire code, and two levels with the
/// same code are the same level.
pub proof fn consistency_round_trip(a: Consistency, b: Consistency)
    ensures
        Consistency::of_code(a.code()) == Ok::<Consistency, WireError>(a),
        a.code() <= 0x000A,
        a.code() == b.code() ==> a == b,
{
}

/// Asks the server which option values it supports. The body is empty.
#[derive(Debug, Clone, Copy, PartialEq, Eq, Structural)]
pub struct Options;

impl Serialize for Options {
    open spec fn encoding(&self) -> Option<Seq<u8>> {
        Some(Seq::empty())
    }

    fn serialize(&self, buf: &mut Vec<u8>) -> (r: Result<usize, WireError>) {
        assert(buf@ =~= old(buf)@ + Seq::<u8>::empty());
        Ok(0)
    }
}

/// Chooses the language version and the compression of a connection.
#[derive(Debug, Clone, Copy, PartialEq, Eq, Structural)]
pub struct Startup {
    pub cql_version: CqlVersion,
    pub compression: Compression,
}

impl Startup {
    /// The body of a startup message: a count of two, then the version
    /// entry, then the compression entry, each a key and a value as short
    /// strings.
    pub open spec fn body(self) -> Seq<u8> {
        u16_be(2) + short_string("CQL_VERSION"@) + short_string(self.cql_version.text())
            + short_string("COMPRESSION"@) + short_string(self.compression.text())
    }
}

/// The canonical texts are plain ASCII: their encodings are as long as
/// they are.
pub proof fn startup_text_lengths()
    ensures
        encode_utf8("CQL_VERSION"@).len() == 11,
        encode_utf8("COMPRESSION"@).len() == 11,
        encode_utf8("3.0.0"@).len() == 5,
        encode_utf8("lz4"@).len() == 3,
        encode_utf8("snappy"@).len() == 6,
{
    reveal_strlit("CQL_VERSION");
    reveal_strlit("COMPRESSION");
    reveal_strlit("3.0.0");
    reveal_strlit("lz4");
    reveal_strlit("snappy");
    vstd::string::is_ascii_spec_bytes("CQL_VERSION");
    vstd::string::is_ascii_spec_bytes("COMPRESSION");
    vstd::string::is_ascii_spec_bytes("3.0.0");
    vstd::string::is_ascii_spec_bytes("lz4");
    vstd::string::is_ascii_spec_bytes("snappy");
}

impl Serialize for Startup {
    open spec fn encoding(&self) -> Option<Seq<u8>> {
        Some(self.body())
    }

    fn serialize(&self, buf: &mut Vec<u8>) -> (r: Result<usize, WireError>) {
        proof {
            startup_text_lengths();
        }
        write_u16(buf, 2);
        let mut written: usize = 2;
        match write_str("CQL_VERSION", buf) {
            Ok(n) => { written = written + n; },
            Err(e) => { return Err(e); },
        }
        match write_str(self.cql_version.to_str(), buf) {
            Ok(n) => { written = written + n; },
            Err(e) => { return Err(e); },
        }
        match write_str("COMPRESSION", buf) {
            Ok(n) => { written = written + n; },
            Err(e) => { return Err(e); },
        }
        match write_str(self.compression.to_str(), buf) {
            Ok(n) => { written = written + n; },
            Err(e) => { return Err(e); },
        }
        assert(buf@ =~= old(buf)@ + self.body());
        Ok(written)
    }
}

/// Decoding the body of a startup message as a string map gives exactly
/// two entries, the version under `CQL_VERSION` and then the compression
/// under `COMPRESSION`, and consumes the whole body.
pub proof fn startup_round_trip(startup: Startup)
    ensures
        string_map_decoding(startup.body()) == Ok::<(Seq<(Seq<char>, Seq<char>)>, int), WireError>(
            (
                seq![
                    ("CQL_VERSION"@, startup.cql_version.text()),
                    ("COMPRESSION"@, startup.compression.text()),
                ],
                startup.body().len() as int,
            ),
        ),
{
    startup_text_lengths();
    let k1 = "CQL_VERSION"@;
    let v1 = startup.cql_version.text();
    let k2 = "COMPRESSION"@;
    let v2 = startup.compression.text();
    let body = startup.body();
    let t3 = short_string(v2);
    let t2 = short_string(k2) + t3;
    let t1 = short_string(v1) + t2;
    let t0 = short_string(k1) + t1;
    short_string_round_trip(k1, t1);
    short_string_round_trip(v1, t2);
    short_string_round_trip(k2, t3);
    short_string_round_trip(v2, Seq::empty());
    u16_round_trip(2, t0);
    assert(body =~= u16_be(2) + t0);
    let at1 = 2 + short_string(k1).len() as int;
    let at2 = at1 + short_string(v1).len() as int;
    let at3 = at2 + short_string(k2).len() as int;
    let at4 = at3 + short_string(v2).len() as int;
    assert(body.skip(2) =~= short_string(k1) + t1);
    assert(body.skip(at1) =~= short_string(v1) + t2);
    assert(body.skip(at2) =~= short_string(k2) + t3);
    assert(body.skip(at3) =~= short_string(v2) + Seq::<u8>::empty());
    let done1 = Seq::<(Seq<char>, Seq<char>)>::empty().push((k1, v1));
    let done2 = done1.push((k2, v2));
    assert(string_pairs_from(body, at4, 0, done2) == Ok::<
        (Seq<(Seq<char>, Seq<char>)>, int),
        WireError,
    >((done2, at4)));
    assert(string_pairs_from(body, at2, 1, done1) == string_pairs_from(body, at4, 0, done2));
    assert(string_pairs_from(body, 2, 2, Seq::empty()) == string_pairs_from(body, at2, 1, done1));
    assert(done2 =~= seq![(k1, v1), (k2, v2)]);
    assert(at4 == body.len());
}

/// The values bound to the markers of a query: none, some by position, or
/// some by name. A well-formed set of named values holds each name once;
/// `named` builds one and `is_well_formed` tests one. The encoder writes
/// the entries as they stand.
pub enum QueryParams {
    Unbound,
    Positional(Vec<Box<dyn ToCql>>),
    Named(Vec<(String, Box<dyn ToCql>)>),
}

/// Flag bit: bound values follow.
pub const VALUES: u8 = 0x01;

/// Flag bit: the result may come without metadata.
pub const SKIP_METADATA: u8 = 0x02;

/// Flag bit: a page size follows.
pub const PAGE_SIZE: u8 = 0x04;

/// Flag bit: a paging state follows.
pub const PAGING_STATE: u8 = 0x08;

/// Flag bit: a serial consistency follows.
pub const SERIAL_CONSISTENCY: u8 = 0x10;

/// Flag bit: a default timestamp follows.
pub const DEFAULT_TIMESTAMP: u8 = 0x20;

/// Flag bit: the bound values carry names.
pub const NAMED_PARAMS: u8 = 0x40;

/// A run of bytes behind its signed 32-bit length.
pub open spec fn prefixed(bytes: Seq<u8>) -> Seq<u8> {
    i32_be(bytes.len() as i32) + bytes
}

/// The encoding of the positional values from index `i` on, appended to
/// `done`: each value behind its 32-bit length. `None` where a value has no
/// encoding or is too long for its prefix.
pub open spec fn positional_from(vals: Seq<Box<dyn ToCql>>, i: int, done: Seq<u8>) -> Option<
    Seq<u8>,
>
    decreases vals.len() - i,
{
    if i < 0 || i >= vals.len() {
        Some(done)
    } else {
        match vals[i].cql_bytes() {
            Some(bytes) => if bytes.len() <= i32::MAX {
                positional_from(vals, i + 1, done + prefixed(bytes))
            } else {
                None
            },
            None => None,
        }
    }
}

/// The encoding of the named values from index `i` on, appended to `done`:
/// each name as a short string, then its value behind its 32-bit length.
/// `None` where a name or a value is too long or a value has no encoding.
pub open spec fn named_from(vals: Seq<(String, Box<dyn ToCql>)>, i: int, done: Seq<u8>) -> Option<
    Seq<u8>,
>
    decreases vals.len() - i,
{
    if i < 0 || i >= vals.len() {
        Some(done)
    } else if encode_utf8(vals[i].0@).len() > 0xFFFF {
        None
    } else {
        match vals[i].1.cql_bytes() {
            Some(bytes) => if bytes.len() <= i32::MAX {
                named_from(vals, i + 1, done + short_string(vals[i].0@) + prefixed(bytes))
            } else {
                None
            },
            None => None,
        }
    }
}

/// Whether no two entries share a name.
pub open spec fn unique_names(vals: Seq<(String, Box<dyn ToCql>)>) -> bool {
    forall|i: int, j: int|
        0 <= i < j < vals.len() ==> (#[trigger] vals[i]).0@ != (#[trigger] vals[j]).0@
}

/// Whether no two entries share a name.
fn has_unique_names(vals: &Vec<(String, Box<dyn ToCql>)>) -> (r: bool)
    ensures
        r == unique_names(vals@),
{
    let mut j: usize = 0;
    while j < vals.len()
        invariant
            j <= vals@.len(),
            forall|a: int, b: int|
                0 <= a < b < j ==> (#[trigger] vals@[a]).0@ != (#[trigger] vals@[b]).0@,
        decreases vals@.len() - j,
    {
        let mut i: usize = 0;
        while i < j
            invariant
                i <= j < vals@.len(),
                forall|a: int| 0 <= a < i ==> (#[trigger] vals@[a]).0@ != vals@[j as int].0@,
            decreases j - i,
        {
            if same_text(vals[i].0.as_str(), vals[j].0.as_str()) {
                assert(vals@[i as int].0@ == vals@[j as int].0@);
                return false;
            }
            i = i + 1;
        }
        j = j + 1;
    }
    true
}

impl QueryParams {
    /// The section of bound values: nothing where none are bound, else an
    /// unsigned 16-bit count and the values.
    pub open spec fn section(&self) -> Option<Seq<u8>> {
        match self {
            QueryParams::Unbound => Some(Seq::empty()),
            QueryParams::Positional(vals) => if vals@.len() > 0xFFFF {
                None
            } else {
                positional_from(vals@, 0, u16_be(vals@.len() as u16))
            },
            QueryParams::Named(vals) => if vals@.len() > 0xFFFF {
                None
            } else {
                named_from(vals@, 0, u16_be(vals@.len() as u16))
            },
        }
    }

    /// Well-formedness: no two bound values share a name.
    pub open spec fn wf(&self) -> bool {
        match self {
            QueryParams::Named(vals) => unique_names(vals@),
            _ => true,
        }
    }

    /// Binds values by name. Gives nothing where two of them share a name.
    pub fn named(entries: Vec<(String, Box<dyn ToCql>)>) -> (r: Option<QueryParams>)
        ensures
            r is Some <==> unique_names(entries@),
            r matches Some(params) ==> params == QueryParams::Named(entries) && params.wf(),
    {
        if has_unique_names(&entries) {
            Some(QueryParams::Named(entries))
        } else {
            None
        }
    }

    /// Whether no two bound values share a name.
    pub fn is_well_formed(&self) -> (r: bool)
        ensures
            r == self.wf(),
    {
        match self {
            QueryParams::Named(vals) => has_unique_names(vals),
            _ => true,
        }
    }

    /// Appends the section of bound values to `buf`; where it has no
    /// encoding, `buf` stays as it was.
    fn write_section(&self, buf: &mut Vec<u8>) -> (r: bool)
        ensures
            r == self.section().is_some(),
            r ==> final(buf)@ == old(buf)@ + self.section().unwrap(),
            !r ==> final(buf)@ == old(buf)@,
    {
        match self {
            QueryParams::Unbound => {
                assert(buf@ =~= old(buf)@ + Seq::<u8>::empty());
                true
            },
            QueryParams::Positional(vals) => {
                if vals.len() > 0xFFFF {
                    return false;
                }
                let mut section: Vec<u8> = Vec::new();
                write_u16(&mut section, vals.len() as u16);
                let mut i: usize = 0;
                while i < vals.len()
                    invariant
                        i <= vals@.len(),
                        positional_from(vals@, i as int, section@) == self.section(),
                        self == QueryParams::Positional(*vals),
                    decreases vals@.len() - i,
                {
                    let ghost before = section@;
                    let mut value: Vec<u8> = Vec::new();
                    if vals[i].write(&mut value).is_err() {
                        return false;
                    }
                    if value.len() > 0x7FFF_FFFF {
                        return false;
                    }
                    write_i32(&mut section, value.len() as i32);
                    write_bytes(&mut section, value.as_slice());
                    proof {
                        let bytes = vals@[i as int].cql_bytes().unwrap();
                        assert(value@ =~= bytes);
                        assert(section@ =~= before + prefixed(bytes));
                    }
                    i = i + 1;
                }
                write_bytes(buf, section.as_slice());
                true
            },
            QueryParams::Named(vals) => {
                if vals.len() > 0xFFFF {
                    return false;
                }
                let mut section: Vec<u8> = Vec::new();
                write_u16(&mut section, vals.len() as u16);
                let mut i: usize = 0;
                while i < vals.len()
                    invariant
                        i <= vals@.len(),
                        named_from(vals@, i as int, section@) == self.section(),
                        self == QueryParams::Named(*vals),
                    decreases vals@.len() - i,
                {
                    let ghost before = section@;
                    if write_str(vals[i].0.as_str(), &mut section).is_err() {
                        return false;
                    }
                    let mut value: Vec<u8> = Vec::new();
                    if vals[i].1.write(&mut value).is_err() {
                        return false;
                    }
                    if value.len() > 0x7FFF_FFFF {
                        return false;
                    }
                    write_i32(&mut section, value.len() as i32);
                    write_bytes(&mut section, value.as_slice());
                    proof {
                        let bytes = vals@[i as int].1.cql_bytes().unwrap();
                        assert(value@ =~= bytes);
                        assert(section@ =~= before + short_string(vals@[i as int].0@) + prefixed(
                            bytes,
                        ));
                    }
                    i = i + 1;
                }
                write_bytes(buf, section.as_slice());
                true
            },
        }
    }
}

/// A statement to run, with its consistency level, its bound values and
/// its paging controls.
pub struct Query {
    pub query: String,
    pub consistency: Consistency,
    pub params: QueryParams,
    pub page_size: Option<usize>,
    pub paging_state: Option<Vec<u8>>,
    pub skip_metadata: bool,
    pub serial_consistency: bool,
}

impl Query {
    /// The flag byte: one bit for each optional section that is present.
    /// The bits are distinct, so their sum is their union. No field carries
    /// a default timestamp, so that bit is never set.
    pub open spec fn flag_byte(&self) -> u8 {
        ((if self.params is Unbound { 0int } else { VALUES as int })
            + (if self.skip_metadata { SKIP_METADATA as int } else { 0 })
            + (if self.page_size is Some { PAGE_SIZE as int } else { 0 })
            + (if self.paging_state is Some { PAGING_STATE as int } else { 0 })
            + (if self.serial_consistency { SERIAL_CONSISTENCY as int } else { 0 })
            + (if self.params is Named { NAMED_PARAMS as int } else { 0 })) as u8
    }

    /// The page size section: a signed 32-bit size where one is set.
    pub open spec fn page_section(&self) -> Option<Seq<u8>> {
        match self.page_size {
            None => Some(Seq::empty()),
            Some(n) => if n <= i32::MAX { Some(i32_be(n as i32)) } else { None },
        }
    }

    /// The paging state section: the token behind its 32-bit length where
    /// one is set.
    pub open spec fn paging_section(&self) -> Option<Seq<u8>> {
        match self.paging_state {
            None => Some(Seq::empty()),
            Some(token) => if token@.len() <= i32::MAX { Some(prefixed(token@)) } else { None },
        }
    }

    /// The serial consistency section: the code of `Serial` where serial
    /// consistency is asked for.
    pub open spec fn serial_section(&self) -> Seq<u8> {
        if self.serial_consistency {
            u16_be(Consistency::Serial.code())
        } else {
            Seq::empty()
        }
    }

    /// Computes the flag byte.
    pub fn flags(&self) -> (r: u8)
        ensures
            r == self.flag_byte(),
    {
        let mut flags: u8 = 0;
        match &self.params {
            QueryParams::Unbound => {},
            QueryParams::Positional(_) => { flags = flags + VALUES; },
            QueryParams::Named(_) => { flags = flags + VALUES + NAMED_PARAMS; },
        }
        if self.skip_metadata {
            flags = flags + SKIP_METADATA;
        }
        if self.page_size.is_some() {
            flags = flags + PAGE_SIZE;
        }
        if self.paging_state.is_some() {
            flags = flags + PAGING_STATE;
        }
        if self.serial_consistency {
            flags = flags + SERIAL_CONSISTENCY;
        }
        flags
    }

    /// Appends the page size section, if it has an encoding.
    fn write_page(&self, buf: &mut Vec<u8>) -> (r: bool)
        ensures
            r == self.page_section().is_some(),
            r ==> final(buf)@ == old(buf)@ + self.page_section().unwrap(),
    {
        match self.page_size {
            None => {
                assert(buf@ =~= old(buf)@ + Seq::<u8>::empty());
                true
            },
            Some(n) => {
                if n > 0x7FFF_FFFF {
                    return false;
                }
                write_i32(buf, n as i32);
                true
            },
        }
    }

    /// Appends the paging state section, if it has an encoding.
    fn write_paging(&self, buf: &mut Vec<u8>) -> (r: bool)
        ensures
            r == self.paging_section().is_some(),
            r ==> final(buf)@ == old(buf)@ + self.paging_section().unwrap(),
    {
        match &self.paging_state {
            None => {
                assert(buf@ =~= old(buf)@ + Seq::<u8>::empty());
                true
            },
            Some(token) => {
                if token.len() > 0x7FFF_FFFF {
                    return false;
                }
                write_i32(buf, token.len() as i32);
                write_bytes(buf, token.as_slice());
                assert(buf@ =~= old(buf)@ + prefixed(token@));
                true
            },
        }
    }

    /// Appends the serial consistency section.
    fn write_serial(&self, buf: &mut Vec<u8>)
        ensures
            final(buf)@ == old(buf)@ + self.serial_section(),
    {
        if self.serial_consistency {
            write_u16(buf, Consistency::Serial.to_code());
        } else {
            assert(buf@ =~= old(buf)@ + Seq::<u8>::empty());
        }
    }

    /// The body of a query message: the statement as a short string, the
    /// consistency code, the flag byte, then the sections that the flags
    /// announce, in the order of their bits. `None` where a part does not
    /// fit its length prefix or a bound value has no encoding.
    pub open spec fn body(&self) -> Option<Seq<u8>> {
        if encode_utf8(self.query@).len() > 0xFFFF {
            None
        } else {
            match (self.params.section(), self.page_section(), self.paging_section()) {
                (Some(values), Some(page), Some(paging)) => Some(
                    short_string(self.query@) + u16_be(self.consistency.code()) + seq![
                        self.flag_byte(),
                    ] + values + page + paging + self.serial_section(),
                ),
                _ => None,
            }
        }
    }
}

impl Serialize for Query {
    open spec fn encoding(&self) -> Option<Seq<u8>> {
        self.body()
    }

    fn serialize(&self, buf: &mut Vec<u8>) -> (r: Result<usize, WireError>) {
        let mut body: Vec<u8> = Vec::new();
        if write_str(self.query.as_str(), &mut body).is_err() {
            return Err(WireError::Overflow);
        }
        write_u16(&mut body, self.consistency.to_code());
        let ghost start = body@;
        body.push(self.flags());
        assert(body@ =~= start + seq![self.flag_byte()]);
        if !self.params.write_section(&mut body) {
            return Err(WireError::Overflow);
        }
        if !self.write_page(&mut body) {
            return Err(WireError::Overflow);
        }
        if !self.write_paging(&mut body) {
            return Err(WireError::Overflow);
        }
        self.write_serial(&mut body);
        write_bytes(buf, body.as_slice());
        Ok(body.len())
    }
}

/// A flag bit is set exactly when its section is present: the values bit
/// when values are bound, the names bit when they are bound by name, the
/// page size, paging state and serial consistency bits when those are
/// asked for, the skip-metadata bit when it is asked for, and the
/// timestamp bit never.
pub proof fn query_flags_match_sections(query: Query)
    ensures
        query.flag_byte() & VALUES != 0 <==> !(query.params is Unbound),
        query.flag_byte() & SKIP_METADATA != 0 <==> query.skip_metadata,
        query.flag_byte() & PAGE_SIZE != 0 <==> query.page_size is Some,
        query.flag_byte() & PAGING_STATE != 0 <==> query.paging_state is Some,
        query.flag_byte() & SERIAL_CONSISTENCY != 0 <==> query.serial_consistency,
        query.flag_byte() & DEFAULT_TIMESTAMP == 0,
        query.flag_byte() & NAMED_PARAMS != 0 <==> query.params is Named,
{
    let a: u8 = if query.params is Unbound { 0 } else { 1 };
    let b: u8 = if query.skip_metadata { 1 } else { 0 };
    let c: u8 = if query.page_size is Some { 1 } else { 0 };
    let d: u8 = if query.paging_state is Some { 1 } else { 0 };
    let e: u8 = if query.serial_consistency { 1 } else { 0 };
    let f: u8 = if query.params is Named { 1 } else { 0 };
    let byte: u8 = query.flag_byte();
    assert(byte == a + 2 * b + 4 * c + 8 * d + 16 * e + 64 * f);
    assert(byte & 0x01 != 0 <==> a == 1) by (bit_vector)
        requires
            a <= 1 && b <= 1 && c <= 1 && d <= 1 && e <= 1 && f <= 1,
            byte == a + 2 * b + 4 * c + 8 * d + 16 * e + 64 * f,
    ;
    assert(byte & 0x02 != 0 <==> b == 1) by (bit_vector)
        requires
            a <= 1 && b <= 1 && c <= 1 && d <= 1 && e <= 1 && f <= 1,
            byte == a + 2 * b + 4 * c + 8 * d + 16 * e + 64 * f,
    ;
    assert(byte & 0x04 != 0 <==> c == 1) by (bit_vector)
        requires
            a <= 1 && b <= 1 && c <= 1 && d <= 1 && e <= 1 && f <= 1,
            byte == a + 2 * b + 4 * c + 8 * d + 16 * e + 64 * f,
    ;
    assert(byte & 0x08 != 0 <==> d == 1) by (bit_vector)
        requires
            a <= 1 && b <= 1 && c <= 1 && d <= 1 && e <= 1 && f <= 1,
            byte == a + 2 * b + 4 * c + 8 * d + 16 * e + 64 * f,
    ;
    assert(byte & 0x10 != 0 <==> e == 1) by (bit_vector)
        requires
            a <= 1 && b <= 1 && c <= 1 && d <= 1 && e <= 1 && f <= 1,
            byte == a + 2 * b + 4 * c + 8 * d + 16 * e + 64 * f,
    ;
    assert(byte & 0x20 == 0) by (bit_vector)
        requires
            a <= 1 && b <= 1 && c <= 1 && d <= 1 && e <= 1 && f <= 1,
            byte == a + 2 * b + 4 * c + 8 * d + 16 * e + 64 * f,
    ;
    assert(byte & 0x40 != 0 <==> f == 1) by (bit_vector)
        requires
            a <= 1 && b <= 1 && c <= 1 && d <= 1 && e <= 1 && f <= 1,
            byte == a + 2 * b + 4 * c + 8 * d + 16 * e + 64 * f,
    ;
}

/// A message from the client.
pub enum Request {
    Options(Options),
    Startup(Startup),
    Query(Query),
}

impl Serialize for Request {
    open spec fn encoding(&self) -> Option<Seq<u8>> {
        match self {
            Request::Options(options) => options.encoding(),
            Request::Startup(startup) => startup.encoding(),
            Request::Query(query) => query.encoding(),
        }
    }

    fn serialize(&self, buf: &mut Vec<u8>) -> (r: Result<usize, WireError>) {
        match self {
            Request::Options(options) => options.serialize(buf),
            Request::Startup(startup) => startup.serialize(buf),
            Request::Query(query) => query.serialize(buf),
        }
    }
}

} // verus!
