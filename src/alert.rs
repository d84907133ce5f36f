use vstd::prelude::*;
use vstd::string::StringSliceAdditionalSpecFns;

verus! {

/// Template text of an alert record up to its signature identifier.
pub const ALERT_HEAD: &'static str = "{\"metadata\":{\"sensor_id\":\"test\",\"sensor_version\":\"1.0\",\"sent_at\":0,\"hash_sha256\":\"hash\",\"read_at\":0,\"received_at\":0},\"timestamp\":\"2023-10-27T10:00:00.000000+0000\",\"flow_id\":123456789,\"in_iface\":\"eth0\",\"event_type\":\"alert\",\"src_ip\":\"192.168.1.10\",\"src_port\":12345,\"dest_ip\":\"10.0.0.1\",\"dest_port\":80,\"proto\":\"TCP\",\"alert\":{\"action\":\"allowed\",\"gid\":1,\"signature_id\":";

/// Template text of an alert record after its signature identifier, ending
/// with the record separator.
pub const ALERT_TAIL: &'static str = ",\"rev\":1,\"signature\":\"Test Alert\",\"category\":\"Misc\",\"severity\":3},\"http\":{\"hostname\":\"example.com\",\"url\":\"/\",\"http_user_agent\":\"Mozilla/5.0\",\"http_content_type\":\"text/html\",\"http_method\":\"GET\",\"protocol\":\"HTTP/1.1\",\"status\":200,\"length\":1024},\"app_proto\":\"http\",\"flow\":{\"pkts_toserver\":10,\"pkts_toclient\":10,\"bytes_toserver\":1000,\"bytes_toclient\":5000,\"start\":\"2023-10-27T10:00:00.000000+0000\"}}\n";

/// ASCII decimal digits of `n`, most significant first, without leading zeros.
pub open spec fn decimal(n: nat) -> Seq<u8>
    decreases n,
{
    if n < 10 {
        seq![(48 + n) as u8]
    } else {
        decimal(n / 10).push((48 + n % 10) as u8)
    }
}

/// The bytes of the alert record that carries `id`.
pub open spec fn alert_record(id: nat) -> Seq<u8> {
    ALERT_HEAD.spec_bytes() + decimal(id) + ALERT_TAIL.spec_bytes()
}

proof fn lemma_decimal_shape(n: nat)
    ensures
        decimal(n).len() >= 1,
        n >= 10 ==> decimal(n).len() >= 2,
        decimal(n).last() == (48 + n % 10) as u8,
    decreases n,
{
    if n >= 10 {
        lemma_decimal_shape(n / 10);
    }
}

/// Distinct identifiers have distinct decimal spellings.
pub proof fn lemma_decimal_injective(a: nat, b: nat)
    requires
        decimal(a) == decimal(b),
    ensures
        a == b,
    decreases a,
{
    lemma_decimal_shape(a);
    lemma_decimal_shape(b);
    if a >= 10 && b >= 10 {
        assert(decimal(a).drop_last() == decimal(a / 10));
        assert(decimal(b).drop_last() == decimal(b / 10));
        lemma_decimal_injective(a / 10, b / 10);
    } else if a < 10 && b < 10 {
        assert(decimal(a)[0] == decimal(b)[0]);
    }
}

/// Records of distinct identifiers differ: an identifier is never emitted
/// twice in one record form.
pub proof fn lemma_alert_record_injective(a: nat, b: nat)
    requires
        alert_record(a) == alert_record(b),
    ensures
        a == b,
{
    let h = ALERT_HEAD.spec_bytes();
    let t = ALERT_TAIL.spec_bytes();
    let ra = alert_record(a);
    let rb = alert_record(b);
    assert(ra.len() == rb.len());
    assert(decimal(a).len() == decimal(b).len());
    assert(decimal(a) =~= ra.subrange(h.len() as int, (h.len() + decimal(a).len()) as int));
    assert(decimal(b) =~= rb.subrange(h.len() as int, (h.len() + decimal(b).len()) as int));
    lemma_decimal_injective(a, b);
}

/// Decimal digits of `n` as ASCII bytes.
pub fn decimal_bytes(n: u64) -> (r: Vec<u8>)
    ensures
        r@ == decimal(n as nat),
{
    let mut r: Vec<u8> = Vec::new();
    let mut m: u64 = n;
    while m >= 10
        invariant
            decimal(n as nat) == decimal(m as nat) + r@,
        decreases m,
    {
        let d: u8 = (m % 10) as u8;
        r.insert(0, 48 + d);
        proof {
            assert(decimal(m as nat) == decimal((m / 10) as nat).push((48 + m % 10) as u8));
        }
        m = m / 10;
        assert(decimal(n as nat) =~= decimal(m as nat) + r@);
    }
    r.insert(0, 48 + m as u8);
    assert(decimal(n as nat) =~= r@);
    r
}

/// Appends the bytes of `s` to `out`.
fn append_bytes(out: &mut Vec<u8>, s: &[u8])
    ensures
        final(out)@ == old(out)@ + s@,
{
    let mut i: usize = 0;
    while i < s.len()
        invariant
            i <= s@.len(),
            out@ == old(out)@ + s@.subrange(0, i as int),
        decreases s@.len() - i,
    {
        out.push(s[i]);
        i = i + 1;
        assert(out@ =~= old(out)@ + s@.subrange(0, i as int));
    }
    assert(s@.subrange(0, s@.len() as int) =~= s@);
}

/// The framed alert record carrying signature identifier `id`.
pub fn render_alert(id: u64) -> (r: Vec<u8>)
    ensures
        r@ == alert_record(id as nat),
{
    let mut r: Vec<u8> = Vec::new();
    append_bytes(&mut r, ALERT_HEAD.as_bytes());
    let digits = decimal_bytes(id);
    append_bytes(&mut r, digits.as_slice());
    append_bytes(&mut r, ALERT_TAIL.as_bytes());
    assert(r@ =~= alert_record(id as nat));
    r
}

} // verus!
