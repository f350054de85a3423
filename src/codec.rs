use vstd::prelude::*;
use vstd::utf8::{decode_utf8, encode_utf8, valid_utf8};

verus! {

/// Byte length of one event record.
pub const RECORD_SIZE: usize = 64;

/// Byte offset of the command-name field.
pub const COMMAND_OFFSET: usize = 32;

/// Byte width of the command-name field.
pub const COMMAND_LEN: usize = 32;

/// 256 to the power `n`.
pub open spec fn radix(n: nat) -> nat
    decreases n,
{
    if n == 0 {
        1
    } else {
        256 * radix((n - 1) as nat)
    }
}

/// The number that bytes encode, least significant byte first.
pub open spec fn le_value(b: Seq<u8>) -> nat
    decreases b.len(),
{
    if b.len() == 0 {
        0
    } else {
        b[0] as nat + 256 * le_value(b.drop_first())
    }
}

/// The `n` low bytes of `x`, least significant first.
pub open spec fn le_bytes(x: nat, n: nat) -> Seq<u8> {
    Seq::new(n, |i: int| ((x / radix(i as nat)) % 256) as u8)
}

pub open spec fn zeros(n: nat) -> Seq<u8> {
    Seq::new(n, |i: int| 0u8)
}

/// The number held in `width` bytes of `b` from `off`.
pub open spec fn field(b: Seq<u8>, off: int, width: int) -> nat {
    le_value(b.subrange(off, off + width))
}

/// `b` without its trailing NUL bytes.
pub open spec fn trim_nuls(b: Seq<u8>) -> Seq<u8>
    decreases b.len(),
{
    if b.len() > 0 && b.last() == 0 {
        trim_nuls(b.drop_last())
    } else {
        b
    }
}

/// The bytes of the command-name field, NUL padding removed.
pub open spec fn command_bytes(b: Seq<u8>) -> Seq<u8> {
    trim_nuls(b.subrange(COMMAND_OFFSET as int, (COMMAND_OFFSET + COMMAND_LEN) as int))
}

/// One decoded record.
#[derive(Clone, Debug, PartialEq, Eq)]
pub struct TraceEvent {
    pub pid: u32,
    pub uid: u32,
    pub cgroup_id: u64,
    pub syscall_number: u32,
    pub latency_nanoseconds: u64,
    pub command_name: String,
}

impl TraceEvent {
    /// The command name fits its fixed field.
    pub open spec fn wf(&self) -> bool {
        encode_utf8(self.command_name@).len() <= COMMAND_LEN
    }
}

/// Why a record could not be decoded.
#[derive(Clone, Copy, Debug, PartialEq, Eq, Structural)]
pub enum DecodeError {
    ShortBuffer,
    MalformedEncoding,
}

/// What each decode error says to a reader.
pub open spec fn decode_error_text(e: DecodeError) -> Seq<char> {
    match e {
        DecodeError::ShortBuffer => "buffer shorter than one record"@,
        DecodeError::MalformedEncoding => "command name is not valid UTF-8"@,
    }
}

impl DecodeError {
    /// A short description of the error.
    pub fn message(&self) -> (r: &'static str)
        ensures
            r@ == decode_error_text(*self),
    {
        match self {
            DecodeError::ShortBuffer => "buffer shorter than one record",
            DecodeError::MalformedEncoding => "command name is not valid UTF-8",
        }
    }
}

/// `e` holds the fields that the record `b` encodes.
pub open spec fn decodes_to(b: Seq<u8>, e: TraceEvent) -> bool {
    &&& e.pid == field(b, 0, 4)
    &&& e.uid == field(b, 4, 4)
    &&& e.cgroup_id == field(b, 8, 8)
    &&& e.syscall_number == field(b, 16, 4)
    &&& e.latency_nanoseconds == field(b, 24, 8)
    &&& encode_utf8(e.command_name@) == command_bytes(b)
}

/// The record that encodes `e`: little-endian integers at fixed offsets, four
/// bytes of zero padding after the syscall number, and the command name padded
/// with NULs.
pub open spec fn encoding(e: TraceEvent) -> Seq<u8> {
    let name = encode_utf8(e.command_name@);
    le_bytes(e.pid as nat, 4) + le_bytes(e.uid as nat, 4) + le_bytes(e.cgroup_id as nat, 8)
        + le_bytes(e.syscall_number as nat, 4) + zeros(4) + le_bytes(e.latency_nanoseconds as nat, 8)
        + name + zeros((COMMAND_LEN - name.len()) as nat)
}

pub proof fn lemma_radix_step(n: nat)
    ensures
        radix(n + 1) == 256 * radix(n),
        radix(n) > 0,
    decreases n,
{
    if n > 0 {
        lemma_radix_step((n - 1) as nat);
    }
}

proof fn lemma_le_value_bound(b: Seq<u8>)
    ensures
        le_value(b) < radix(b.len()),
    decreases b.len(),
{
    if b.len() > 0 {
        lemma_le_value_bound(b.drop_first());
        lemma_radix_step((b.len() - 1) as nat);
        assert(le_value(b) < radix(b.len())) by (nonlinear_arith)
            requires
                le_value(b) == b[0] as nat + 256 * le_value(b.drop_first()),
                le_value(b.drop_first()) + 1 <= radix((b.len() - 1) as nat),
                radix(b.len()) == 256 * radix((b.len() - 1) as nat),
                b[0] < 256,
        ;
    }
}

proof fn lemma_le_bytes_shift(x: nat, n: nat)
    requires
        n > 0,
    ensures
        le_bytes(x, n).drop_first() == le_bytes(x / 256, (n - 1) as nat),
        le_bytes(x, n)[0] == (x % 256) as u8,
{
    assert forall|i: int| 0 <= i < n - 1 implies #[trigger] le_bytes(x, n).drop_first()[i] == le_bytes(
        x / 256,
        (n - 1) as nat,
    )[i] by {
        lemma_radix_step(i as nat);
        vstd::arithmetic::div_mod::lemma_div_denominator(x as int, 256, radix(i as nat) as int);
    }
    assert(le_bytes(x, n).drop_first() =~= le_bytes(x / 256, (n - 1) as nat));
    assert(radix(0) == 1);
    assert(x / radix(0) == x);
}

/// Bytes read back from the number they encode are the same bytes.
pub proof fn lemma_le_bytes_of_value(b: Seq<u8>)
    ensures
        le_bytes(le_value(b), b.len()) == b,
    decreases b.len(),
{
    if b.len() > 0 {
        let v = le_value(b);
        let rest = le_value(b.drop_first());
        lemma_le_bytes_of_value(b.drop_first());
        assert(v % 256 == b[0] as nat && v / 256 == rest) by (nonlinear_arith)
            requires
                v == b[0] as nat + 256 * rest,
                b[0] < 256,
        ;
        lemma_le_bytes_shift(v, b.len());
        assert(le_bytes(v, b.len()) =~= b) by {
            assert forall|i: int| 0 <= i < b.len() implies le_bytes(v, b.len())[i] == b[i] by {
                if i > 0 {
                    assert(le_bytes(v, b.len())[i] == le_bytes(v, b.len()).drop_first()[i - 1]);
                }
            }
        }
    }
}

/// A number below `radix(n)` read back from its `n` bytes is the same number.
pub proof fn lemma_value_of_le_bytes(x: nat, n: nat)
    requires
        x < radix(n),
    ensures
        le_value(le_bytes(x, n)) == x,
    decreases n,
{
    if n > 0 {
        lemma_radix_step((n - 1) as nat);
        lemma_le_bytes_shift(x, n);
        assert(x / 256 < radix((n - 1) as nat)) by (nonlinear_arith)
            requires
                x < radix(n),
                radix(n) == 256 * radix((n - 1) as nat),
        ;
        lemma_value_of_le_bytes(x / 256, (n - 1) as nat);
        assert(x == x % 256 + 256 * (x / 256)) by (nonlinear_arith);
    }
}

proof fn lemma_trim_nuls(b: Seq<u8>)
    ensures
        trim_nuls(b).len() <= b.len(),
        trim_nuls(b) == b.subrange(0, trim_nuls(b).len() as int),
        forall|i: int| trim_nuls(b).len() <= i < b.len() ==> b[i] == 0,
        trim_nuls(b).len() > 0 ==> trim_nuls(b).last() != 0,
    decreases b.len(),
{
    if b.len() > 0 && b.last() == 0 {
        lemma_trim_nuls(b.drop_last());
        assert forall|i: int| trim_nuls(b).len() <= i < b.len() implies b[i] == 0 by {
            if i < b.len() - 1 {
                assert(b.drop_last()[i] == b[i]);
            }
        }
        assert(b.drop_last().subrange(0, trim_nuls(b).len() as int) =~= b.subrange(0, trim_nuls(b).len() as int));
    } else {
        assert(b.subrange(0, b.len() as int) =~= b);
    }
}

/// Relies on std::str::from_utf8: it succeeds exactly on well-formed UTF-8,
/// and the text then has those bytes.
#[verifier::external_body]
fn utf8_text(bytes: &[u8]) -> (r: Option<String>)
    ensures
        match r {
            Some(s) => valid_utf8(bytes@) && encode_utf8(s@) == bytes@,
            None => !valid_utf8(bytes@),
        },
{
    match std::str::from_utf8(bytes) {
        Ok(s) => Some(s.to_string()),
        Err(_) => None,
    }
}

/// Reads `width` bytes from `off`, least significant first.
fn read_le(buf: &[u8], off: usize, width: usize) -> (r: u64)
    requires
        width <= 8,
        off + width <= buf.len(),
    ensures
        r as nat == field(buf@, off as int, width as int),
{
    let mut acc: u64 = 0;
    let mut i: usize = width;
    while i > 0
        invariant
            i <= width <= 8,
            off + width <= buf.len(),
            acc as nat == le_value(buf@.subrange(off + i, off + width)),
            acc < radix((width - i) as nat),
        decreases i,
    {
        proof {
            let tail = buf@.subrange(off + i - 1, off + width);
            assert(tail.drop_first() =~= buf@.subrange(off + i, off + width));
            lemma_radix_step((width - i) as nat);
            lemma_radix_values();
            lemma_radix_monotone((width - i) as nat, 7);
            let r = radix((width - i) as nat);
            let b = tail[0];
            assert(acc * 256 + b < 256 * r && 256 * r <= 256 * radix(7)) by (nonlinear_arith)
                requires
                    acc < r,
                    b < 256,
                    r <= radix(7),
            ;
        }
        let byte = buf[off + i - 1];
        acc = acc * 256 + byte as u64;
        i = i - 1;
    }
    acc
}

proof fn lemma_radix_values()
    ensures
        radix(4) == 0x1_0000_0000,
        radix(7) == 0x100_0000_0000_0000,
        radix(8) == 0x1_0000_0000_0000_0000,
{
    assert(radix(0) == 1);
    assert(radix(1) == 0x100);
    assert(radix(2) == 0x1_0000);
    assert(radix(3) == 0x100_0000);
    assert(radix(4) == 0x1_0000_0000);
    assert(radix(5) == 0x100_0000_0000);
    assert(radix(6) == 0x1_0000_0000_0000);
    assert(radix(7) == 0x100_0000_0000_0000);
    assert(radix(8) == 0x1_0000_0000_0000_0000);
}

proof fn lemma_radix_monotone(a: nat, b: nat)
    requires
        a <= b,
    ensures
        radix(a) <= radix(b),
    decreases b,
{
    if a < b {
        lemma_radix_monotone(a, (b - 1) as nat);
        lemma_radix_step((b - 1) as nat);
    }
}

/// Appends the `width` low bytes of `x`, least significant first.
pub(crate) fn write_le(out: &mut Vec<u8>, x: u64, width: usize)
    requires
        width <= 8,
    ensures
        final(out)@ == old(out)@ + le_bytes(x as nat, width as nat),
{
    let mut v: u64 = x;
    let mut j: usize = 0;
    proof {
        assert(radix(0) == 1);
        assert(out@ =~= old(out)@ + le_bytes(x as nat, 0));
    }
    while j < width
        invariant
            j <= width,
            v as nat == x as nat / radix(j as nat),
            out@ == old(out)@ + le_bytes(x as nat, j as nat),
        decreases width - j,
    {
        proof {
            lemma_radix_step(j as nat);
            vstd::arithmetic::div_mod::lemma_div_denominator(x as int, radix(j as nat) as int, 256);
            assert(radix(j as nat) * 256 == radix(j as nat + 1)) by (nonlinear_arith)
                requires radix(j as nat + 1) == 256 * radix(j as nat);
        }
        out.push((v % 256) as u8);
        v = v / 256;
        j = j + 1;
        assert(out@ =~= old(out)@ + le_bytes(x as nat, j as nat));
    }
}

pub(crate) fn push_zeros(out: &mut Vec<u8>, n: usize)
    ensures
        final(out)@ == old(out)@ + zeros(n as nat),
{
    let mut j: usize = 0;
    while j < n
        invariant
            j <= n,
            out@ == old(out)@ + zeros(j as nat),
        decreases n - j,
    {
        out.push(0);
        j = j + 1;
        assert(out@ =~= old(out)@ + zeros(j as nat));
    }
}

/// Decodes one record. Buffers longer than a record are read up to the
/// record's end.
pub fn decode(buf: &[u8]) -> (r: Result<TraceEvent, DecodeError>)
    ensures
        buf@.len() < RECORD_SIZE ==> r == Err::<TraceEvent, DecodeError>(DecodeError::ShortBuffer),
        buf@.len() >= RECORD_SIZE && !valid_utf8(command_bytes(buf@)) ==> r == Err::<
            TraceEvent,
            DecodeError,
        >(DecodeError::MalformedEncoding),
        buf@.len() >= RECORD_SIZE && valid_utf8(command_bytes(buf@)) ==> (r matches Ok(e) && decodes_to(
            buf@,
            e,
        ) && e.command_name@ == decode_utf8(command_bytes(buf@)) && e.wf()),
{
    if buf.len() < RECORD_SIZE {
        return Err(DecodeError::ShortBuffer);
    }
    let ghost field_bytes = buf@.subrange(COMMAND_OFFSET as int, (COMMAND_OFFSET + COMMAND_LEN) as int);
    let mut end: usize = COMMAND_LEN;
    assert(field_bytes.subrange(0, COMMAND_LEN as int) =~= field_bytes);
    while end > 0 && buf[COMMAND_OFFSET + end - 1] == 0
        invariant
            end <= COMMAND_LEN,
            buf@.len() >= RECORD_SIZE,
            field_bytes == buf@.subrange(COMMAND_OFFSET as int, (COMMAND_OFFSET + COMMAND_LEN) as int),
            trim_nuls(field_bytes.subrange(0, end as int)) == command_bytes(buf@),
        decreases end,
    {
        proof {
            assert(field_bytes.subrange(0, end as int).drop_last() =~= field_bytes.subrange(0, end - 1));
        }
        end = end - 1;
    }
    let mut name: Vec<u8> = Vec::new();
    let mut k: usize = 0;
    while k < end
        invariant
            k <= end <= COMMAND_LEN,
            buf@.len() >= RECORD_SIZE,
            name@ == buf@.subrange(COMMAND_OFFSET as int, COMMAND_OFFSET + k),
        decreases end - k,
    {
        name.push(buf[COMMAND_OFFSET + k]);
        k = k + 1;
        assert(name@ =~= buf@.subrange(COMMAND_OFFSET as int, COMMAND_OFFSET + k));
    }
    proof {
        assert(name@ =~= field_bytes.subrange(0, end as int));
        assert(trim_nuls(name@) == name@);
    }
    proof {
        lemma_radix_values();
        lemma_le_value_bound(buf@.subrange(0, 4));
        lemma_le_value_bound(buf@.subrange(4, 8));
        lemma_le_value_bound(buf@.subrange(16, 20));
    }
    match utf8_text(name.as_slice()) {
        None => Err(DecodeError::MalformedEncoding),
        Some(command_name) => {
            proof {
                vstd::utf8::encode_utf8_decode_utf8(command_name@);
            }
            Ok(TraceEvent {
            pid: read_le(buf, 0, 4) as u32,
            uid: read_le(buf, 4, 4) as u32,
            cgroup_id: read_le(buf, 8, 8),
            syscall_number: read_le(buf, 16, 4) as u32,
            latency_nanoseconds: read_le(buf, 24, 8),
            command_name,
        })
        },
    }
}

/// Encodes a record in the layout that `decode` reads.
pub fn encode(e: &TraceEvent) -> (r: Vec<u8>)
    requires
        e.wf(),
    ensures
        r@ == encoding(*e),
        r@.len() == RECORD_SIZE,
{
    let mut out: Vec<u8> = Vec::new();
    write_le(&mut out, e.pid as u64, 4);
    write_le(&mut out, e.uid as u64, 4);
    write_le(&mut out, e.cgroup_id, 8);
    write_le(&mut out, e.syscall_number as u64, 4);
    push_zeros(&mut out, 4);
    write_le(&mut out, e.latency_nanoseconds, 8);
    let name = e.command_name.as_str().as_bytes();
    let ghost start = out@;
    let mut k: usize = 0;
    while k < name.len()
        invariant
            k <= name@.len(),
            out@ == start + name@.subrange(0, k as int),
        decreases name@.len() - k,
    {
        out.push(name[k]);
        k = k + 1;
        assert(out@ =~= start + name@.subrange(0, k as int));
    }
    assert(name@.subrange(0, name@.len() as int) =~= name@);
    push_zeros(&mut out, COMMAND_LEN - name.len());
    out
}

/// Re-encoding the fields that a record decodes to gives back the record, byte
/// for byte, wherever its padding after the syscall number is zero. Hence two
/// such records that decode to the same event are the same record.
pub proof fn law_decode_then_encode(b: Seq<u8>, e: TraceEvent)
    requires
        b.len() == RECORD_SIZE,
        b.subrange(20, 24) == zeros(4),
        decodes_to(b, e),
    ensures
        encoding(e) == b,
{
    lemma_le_bytes_of_value(b.subrange(0, 4));
    lemma_le_bytes_of_value(b.subrange(4, 8));
    lemma_le_bytes_of_value(b.subrange(8, 16));
    lemma_le_bytes_of_value(b.subrange(16, 20));
    lemma_le_bytes_of_value(b.subrange(24, 32));
    let cmd = b.subrange(32, 64);
    let name = encode_utf8(e.command_name@);
    lemma_trim_nuls(cmd);
    assert(cmd =~= name + zeros((COMMAND_LEN - name.len()) as nat));
    assert(b =~= b.subrange(0, 4) + b.subrange(4, 8) + b.subrange(8, 16) + b.subrange(16, 20)
        + b.subrange(20, 24) + b.subrange(24, 32) + cmd);
}

proof fn lemma_trim_padding(name: Seq<u8>, k: nat)
    requires
        name.len() == 0 || name.last() != 0,
    ensures
        trim_nuls(name + zeros(k)) == name,
    decreases k,
{
    if k == 0 {
        assert(name + zeros(0) =~= name);
    } else {
        assert((name + zeros(k)).drop_last() =~= name + zeros((k - 1) as nat));
        lemma_trim_padding(name, (k - 1) as nat);
    }
}

/// Encoding an event whose command name does not end in NUL gives a record
/// that decodes to that event's fields.
pub proof fn law_encode_then_decode(e: TraceEvent)
    requires
        e.wf(),
        encode_utf8(e.command_name@).len() == 0 || encode_utf8(e.command_name@).last() != 0,
    ensures
        encoding(e).len() == RECORD_SIZE,
        valid_utf8(command_bytes(encoding(e))),
        decodes_to(encoding(e), e),
{
    let b = encoding(e);
    let name = encode_utf8(e.command_name@);
    lemma_radix_values();
    lemma_value_of_le_bytes(e.pid as nat, 4);
    lemma_value_of_le_bytes(e.uid as nat, 4);
    lemma_value_of_le_bytes(e.cgroup_id as nat, 8);
    lemma_value_of_le_bytes(e.syscall_number as nat, 4);
    lemma_value_of_le_bytes(e.latency_nanoseconds as nat, 8);
    assert(b.subrange(0, 4) =~= le_bytes(e.pid as nat, 4));
    assert(b.subrange(4, 8) =~= le_bytes(e.uid as nat, 4));
    assert(b.subrange(8, 16) =~= le_bytes(e.cgroup_id as nat, 8));
    assert(b.subrange(16, 20) =~= le_bytes(e.syscall_number as nat, 4));
    assert(b.subrange(24, 32) =~= le_bytes(e.latency_nanoseconds as nat, 8));
    assert(b.subrange(32, 64) =~= name + zeros((COMMAND_LEN - name.len()) as nat));
    lemma_trim_padding(name, (COMMAND_LEN - name.len()) as nat);
    vstd::utf8::encode_utf8_valid_utf8(e.command_name@);
}

} // verus!
