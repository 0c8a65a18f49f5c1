//! The rules of the HTTP interface: authentication by API key, the query of a
//! configuration request (split, percent-decoding, validation) and what the
//! configuration endpoint reports.
use vstd::prelude::*;
use vstd::slice::{slice_subrange, slice_to_vec};
use vstd::string::StringSliceAdditionalSpecFns;
use vstd::utf8::{decode_utf8, valid_utf8};
use crate::config_storage::{
    apply_change, battery_min_pct, changed, gate_pulse_ms, grace_ms, http_api_key,
    motion_timeout_s, reset_all, telemetry_interval_s, ChangeView, ConfigChange, ConfigStorage,
    ConfigView, PersistOutcome,
};
use crate::parse::{parse_u16, parse_u64, parse_u8, parse_unsigned};

verus! {

// ----- bytes -----

/// The index of the first `b` in `s`, or the length of `s` where there is none.
pub open spec fn find_byte(s: Seq<u8>, b: u8) -> nat
    decreases s.len(),
{
    if s.len() == 0 {
        0
    } else if s[0] == b {
        0
    } else {
        1 + find_byte(s.skip(1), b)
    }
}

proof fn lemma_find_byte(t: Seq<u8>, b: u8, k: nat)
    requires
        k <= t.len(),
        forall|j: int| 0 <= j < k ==> t[j] != b,
        k == t.len() || t[k as int] == b,
    ensures
        find_byte(t, b) == k,
    decreases t.len(),
{
    if t.len() > 0 && t[0] != b {
        assert forall|j: int| 0 <= j < k - 1 implies t.skip(1)[j] != b by {
            assert(t.skip(1)[j] == t[j + 1]);
        }
        lemma_find_byte(t.skip(1), b, (k - 1) as nat);
    }
}

/// The position of the first `b` in `s[from..to]`, or `to` where there is none.
fn find_byte_in(s: &[u8], from: usize, to: usize, b: u8) -> (k: usize)
    requires
        from <= to <= s@.len(),
    ensures
        from <= k <= to,
        k == from + find_byte(s@.subrange(from as int, to as int), b),
{
    let mut k = from;
    while k < to && s[k] != b
        invariant
            from <= k <= to,
            to <= s@.len(),
            forall|j: int| from <= j < k ==> s@[j] != b,
        decreases to - k,
    {
        k = k + 1;
    }
    proof {
        let t = s@.subrange(from as int, to as int);
        assert forall|j: int| 0 <= j < k - from implies t[j] != b by {
            assert(t[j] == s@[from + j]);
        }
        lemma_find_byte(t, b, (k - from) as nat);
    }
    k
}

/// Byte-by-byte comparison that looks at every byte, whatever the first
/// difference, so that the time taken does not reveal where it is.
pub fn constant_time_eq(a: &[u8], b: &[u8]) -> (eq: bool)
    ensures
        eq == (a@ == b@),
{
    if a.len() != b.len() {
        return false;
    }
    let n = a.len();
    let mut diff: u8 = 0;
    let mut i: usize = 0;
    while i < n
        invariant
            i <= n,
            n == a@.len(),
            n == b@.len(),
            diff == 0 <==> forall|j: int| 0 <= j < i ==> a@[j] == b@[j],
        decreases n - i,
    {
        let x = a[i];
        let y = b[i];
        assert((diff | (x ^ y)) == 0 <==> (diff == 0 && x == y)) by (bit_vector);
        diff = diff | (x ^ y);
        i = i + 1;
    }
    if diff == 0 {
        assert(a@ =~= b@);
    }
    diff == 0
}

// ----- authentication -----

/// A request is authorised when no API key is configured, or when it carries
/// exactly the configured key.
pub open spec fn authorised(key: Seq<char>, provided: Option<Seq<char>>) -> bool {
    key.len() == 0 || provided == Some(key)
}

pub fn check_auth(storage: &ConfigStorage, provided: Option<&str>) -> (ok: bool)
    ensures
        ok == authorised(
            storage.current.http_api_key@,
            match provided {
                Some(p) => Some(p@),
                None => None,
            },
        ),
{
    let key = http_api_key(storage);
    if key.as_str().is_empty() {
        return true;
    }
    match provided {
        Some(p) => {
            let eq = constant_time_eq(p.as_bytes(), key.as_str().as_bytes());
            proof {
                vstd::utf8::encode_utf8_decode_utf8(p@);
                vstd::utf8::encode_utf8_decode_utf8(key@);
            }
            eq
        },
        None => false,
    }
}

// ----- percent-decoding -----

pub open spec fn spec_hex_val(b: u8) -> Option<u8> {
    if 48 <= b <= 57 {
        Some((b - 48) as u8)
    } else if 97 <= b <= 102 {
        Some((b - 97 + 10) as u8)
    } else if 65 <= b <= 70 {
        Some((b - 65 + 10) as u8)
    } else {
        None
    }
}

/// The value of a hexadecimal digit of either case.
pub fn hex_val(b: u8) -> (v: Option<u8>)
    ensures
        v == spec_hex_val(b),
{
    if b >= 48 && b <= 57 {
        Some(b - 48)
    } else if b >= 97 && b <= 102 {
        Some(b - 97 + 10)
    } else if b >= 65 && b <= 70 {
        Some(b - 65 + 10)
    } else {
        None
    }
}

/// Form decoding: `%` and two hexadecimal digits stand for that byte, `+` for a
/// space; every other byte, a `%` without two digits after it included, stands
/// for itself.
pub open spec fn url_decoded(s: Seq<u8>) -> Seq<u8>
    decreases s.len(),
{
    if s.len() == 0 {
        seq![]
    } else if s[0] == 37 && s.len() > 2 && spec_hex_val(s[1]) is Some && spec_hex_val(
        s[2],
    ) is Some {
        seq![
            (spec_hex_val(s[1]).unwrap() * 16 + spec_hex_val(s[2]).unwrap()) as u8,
        ] + url_decoded(s.skip(3))
    } else {
        seq![if s[0] == 43 { 32u8 } else { s[0] }] + url_decoded(s.skip(1))
    }
}

pub fn url_decode_bytes(s: &[u8]) -> (out: Vec<u8>)
    ensures
        out@ == url_decoded(s@),
{
    let n = s.len();
    let mut out: Vec<u8> = Vec::new();
    let mut i: usize = 0;
    assert(s@.skip(0) =~= s@);
    while i < n
        invariant
            i <= n,
            n == s@.len(),
            out@ + url_decoded(s@.skip(i as int)) == url_decoded(s@),
        decreases n - i,
    {
        let ghost rest = s@.skip(i as int);
        assert(rest[0] == s@[i as int]);
        if s[i] == 37 && n - i > 2 {
            assert(rest[1] == s@[i + 1]);
            assert(rest[2] == s@[i + 2]);
            let hi = hex_val(s[i + 1]);
            let lo = hex_val(s[i + 2]);
            if let (Some(h), Some(l)) = (hi, lo) {
                assert(h < 16 && l < 16 ==> (h << 4u8 | l) == h * 16 + l) by (bit_vector);
                out.push(h << 4 | l);
                assert(rest.skip(3) =~= s@.skip(i + 3));
                i = i + 3;
                continue;
            }
        }
        out.push(if s[i] == 43 { 32 } else { s[i] });
        assert(rest.skip(1) =~= s@.skip(i + 1));
        i = i + 1;
    }
    assert(s@.skip(n as int) =~= Seq::<u8>::empty());
    out
}

/// What `String::from_utf8_lossy` makes of a byte string: its UTF-8 decoding,
/// with each invalid sequence replaced by U+FFFD.
pub uninterp spec fn utf8_lossy(bytes: Seq<u8>) -> Seq<char>;

/// Calls `String::from_utf8_lossy`. Claimed: the result is a function of the
/// bytes alone, and for valid UTF-8 it is the decoded text (as std documents).
/// Where the bytes are invalid, which replacement characters appear is left
/// unsaid beyond that naming.
#[verifier::external_body]
fn string_from_utf8_lossy(bytes: &[u8]) -> (s: String)
    ensures
        s@ == utf8_lossy(bytes@),
        valid_utf8(bytes@) ==> s@ == decode_utf8(bytes@),
{
    String::from_utf8_lossy(bytes).into_owned()
}

/// Percent-decodes a query value into text.
pub fn url_decode(s: &str) -> (out: String)
    ensures
        out@ == utf8_lossy(url_decoded(s.spec_bytes())),
        valid_utf8(url_decoded(s.spec_bytes())) ==> out@ == decode_utf8(
            url_decoded(s.spec_bytes()),
        ),
{
    let bytes = url_decode_bytes(s.as_bytes());
    string_from_utf8_lossy(bytes.as_slice())
}

// ----- the query -----

/// One `key=value` pair of a query; the value is percent-decoded, the key is not.
pub struct QueryParam {
    pub key: Vec<u8>,
    pub value: Vec<u8>,
}

impl View for QueryParam {
    type V = (Seq<u8>, Seq<u8>);

    open spec fn view(&self) -> (Seq<u8>, Seq<u8>) {
        (self.key@, self.value@)
    }
}

pub open spec fn params_view(ps: Seq<QueryParam>) -> Seq<(Seq<u8>, Seq<u8>)> {
    ps.map_values(|p: QueryParam| p@)
}

/// The part of a request target after its first `?`; empty where there is none.
pub open spec fn uri_query(uri: Seq<u8>) -> Seq<u8> {
    let k = find_byte(uri, 63);
    if k < uri.len() {
        uri.skip(k + 1 as int)
    } else {
        seq![]
    }
}

/// A segment with an `=` gives the pair split at its first `=`; one without
/// gives nothing.
pub open spec fn param_of(segment: Seq<u8>) -> Option<(Seq<u8>, Seq<u8>)> {
    let k = find_byte(segment, 61);
    if k < segment.len() {
        Some((segment.take(k as int), url_decoded(segment.skip(k + 1 as int))))
    } else {
        None
    }
}

/// The pairs of a query: it is split at every `&`, and each segment is read
/// with `param_of`, in order.
pub open spec fn query_params(q: Seq<u8>) -> Seq<(Seq<u8>, Seq<u8>)>
    decreases q.len(),
{
    let k = find_byte(q, 38);
    let head = match param_of(q.take(k as int)) {
        Some(p) => seq![p],
        None => seq![],
    };
    if k < q.len() {
        head + query_params(q.skip(k + 1 as int))
    } else {
        head
    }
}

/// The part of a request target after its first `?`.
pub fn query_of_uri(uri: &[u8]) -> (q: &[u8])
    ensures
        q@ == uri_query(uri@),
{
    let n = uri.len();
    let k = find_byte_in(uri, 0, n, 63);
    assert(uri@.subrange(0, n as int) =~= uri@);
    if k < n {
        slice_subrange(uri, k + 1, n)
    } else {
        slice_subrange(uri, n, n)
    }
}

/// Splits a query into its `key=value` pairs.
pub fn parse_config_query(q: &[u8]) -> (params: Vec<QueryParam>)
    ensures
        params_view(params@) == query_params(q@),
{
    let n = q.len();
    let mut params: Vec<QueryParam> = Vec::new();
    let mut pos: usize = 0;
    assert(q@.skip(0) =~= q@);
    loop
        invariant_except_break
            params_view(params@) + query_params(q@.skip(pos as int)) == query_params(q@),
        invariant
            pos <= n,
            n == q@.len(),
        ensures
            params_view(params@) == query_params(q@),
        decreases n - pos,
    {
        let j = find_byte_in(q, pos, n, 38);
        let ghost rest = q@.skip(pos as int);
        assert(q@.subrange(pos as int, n as int) =~= rest);
        let ghost segment = rest.take(j - pos);
        assert(segment =~= q@.subrange(pos as int, j as int));
        let e = find_byte_in(q, pos, j, 61);
        let ghost before = params_view(params@);
        if e < j {
            let key = slice_to_vec(slice_subrange(q, pos, e));
            let value = url_decode_bytes(slice_subrange(q, e + 1, j));
            assert(segment.take(e - pos) =~= key@);
            assert(segment.skip(e - pos + 1) =~= q@.subrange(e + 1, j as int));
            params.push(QueryParam { key, value });
            assert(params_view(params@) =~= before.push(param_of(segment).unwrap()));
        } else {
            assert(params_view(params@) =~= before);
        }
        if j >= n {
            assert(params_view(params@) =~= query_params(q@));
            break;
        }
        assert(rest.skip(j - pos + 1) =~= q@.skip(j + 1));
        pos = j + 1;
    }
    params
}

// ----- configuration updates -----

pub open spec fn valid_battery_min_pct(v: nat) -> bool {
    v <= 100
}

pub open spec fn valid_grace_ms(v: nat) -> bool {
    v <= 60000
}

pub open spec fn valid_motion_timeout_s(v: nat) -> bool {
    1 <= v <= 300
}

pub open spec fn valid_gate_pulse_ms(v: nat) -> bool {
    1 <= v <= 60000
}

pub open spec fn valid_telemetry_interval_s(v: nat) -> bool {
    1 <= v <= 3600
}

/// The change that one pair asks for: a known key with a value that parses and
/// is in range. Anything else asks for nothing.
pub open spec fn change_of(key: Seq<u8>, value: Seq<u8>) -> Option<ChangeView> {
    if key == "http_api_key".spec_bytes() {
        Some(ChangeView::HttpApiKey(utf8_lossy(value)))
    } else if key == "battery_min_pct".spec_bytes() {
        match parse_unsigned(value, u8::MAX as nat) {
            Some(v) => if valid_battery_min_pct(v) {
                Some(ChangeView::BatteryMinPct(v as u8))
            } else {
                None
            },
            None => None,
        }
    } else if key == "grace_ms".spec_bytes() {
        match parse_unsigned(value, u16::MAX as nat) {
            Some(v) => if valid_grace_ms(v) {
                Some(ChangeView::GraceMs(v as u16))
            } else {
                None
            },
            None => None,
        }
    } else if key == "motion_timeout_s".spec_bytes() {
        match parse_unsigned(value, u16::MAX as nat) {
            Some(v) => if valid_motion_timeout_s(v) {
                Some(ChangeView::MotionTimeoutS(v as u16))
            } else {
                None
            },
            None => None,
        }
    } else if key == "gate_pulse_ms".spec_bytes() {
        match parse_unsigned(value, u64::MAX as nat) {
            Some(v) => if valid_gate_pulse_ms(v) {
                Some(ChangeView::GatePulseMs(v as u64))
            } else {
                None
            },
            None => None,
        }
    } else if key == "telemetry_interval_s".spec_bytes() {
        match parse_unsigned(value, u64::MAX as nat) {
            Some(v) => if valid_telemetry_interval_s(v) {
                Some(ChangeView::TelemetryIntervalS(v as u64))
            } else {
                None
            },
            None => None,
        }
    } else {
        None
    }
}

pub open spec fn is_reset(p: (Seq<u8>, Seq<u8>)) -> bool {
    p.0 == "reset".spec_bytes() && p.1 == "1".spec_bytes()
}

/// What a configuration request asks for.
pub enum ConfigUpdate {
    /// Forget every runtime setting.
    Reset,
    /// Apply these changes, in order.
    Changes(Vec<ConfigChange>),
}

pub enum UpdateView {
    Reset,
    Changes(Seq<ChangeView>),
}

impl View for ConfigUpdate {
    type V = UpdateView;

    open spec fn view(&self) -> UpdateView {
        match self {
            ConfigUpdate::Reset => UpdateView::Reset,
            ConfigUpdate::Changes(cs) => UpdateView::Changes(
                cs@.map_values(|c: ConfigChange| c@),
            ),
        }
    }
}

/// A request whose query holds `reset=1` anywhere resets; otherwise it asks for
/// the changes of its pairs, in order.
pub open spec fn planned_update(uri: Seq<u8>) -> UpdateView {
    let params = query_params(uri_query(uri));
    if exists|i: int| 0 <= i < params.len() && is_reset(#[trigger] params[i]) {
        UpdateView::Reset
    } else {
        UpdateView::Changes(params.filter_map(|p: (Seq<u8>, Seq<u8>)| change_of(p.0, p.1)))
    }
}

fn bytes_eq_str(bytes: &[u8], text: &str) -> (eq: bool)
    ensures
        eq == (bytes@ == text.spec_bytes()),
{
    constant_time_eq(bytes, text.as_bytes())
}

fn change_of_param(p: &QueryParam) -> (c: Option<ConfigChange>)
    ensures
        match c {
            Some(ch) => change_of(p.key@, p.value@) == Some(ch@),
            None => change_of(p.key@, p.value@) is None,
        },
{
    let key = p.key.as_slice();
    let value = p.value.as_slice();
    if bytes_eq_str(key, "http_api_key") {
        Some(ConfigChange::HttpApiKey(string_from_utf8_lossy(value)))
    } else if bytes_eq_str(key, "battery_min_pct") {
        match parse_u8(value) {
            Some(v) => if v <= 100 {
                Some(ConfigChange::BatteryMinPct(v))
            } else {
                None
            },
            None => None,
        }
    } else if bytes_eq_str(key, "grace_ms") {
        match parse_u16(value) {
            Some(v) => if v <= 60000 {
                Some(ConfigChange::GraceMs(v))
            } else {
                None
            },
            None => None,
        }
    } else if bytes_eq_str(key, "motion_timeout_s") {
        match parse_u16(value) {
            Some(v) => if 1 <= v && v <= 300 {
                Some(ConfigChange::MotionTimeoutS(v))
            } else {
                None
            },
            None => None,
        }
    } else if bytes_eq_str(key, "gate_pulse_ms") {
        match parse_u64(value) {
            Some(v) => if 1 <= v && v <= 60000 {
                Some(ConfigChange::GatePulseMs(v))
            } else {
                None
            },
            None => None,
        }
    } else if bytes_eq_str(key, "telemetry_interval_s") {
        match parse_u64(value) {
            Some(v) => if 1 <= v && v <= 3600 {
                Some(ConfigChange::TelemetryIntervalS(v))
            } else {
                None
            },
            None => None,
        }
    } else {
        None
    }
}

/// Reads what a configuration request (its target, query included) asks for.
pub fn plan_config_update(uri: &[u8]) -> (update: ConfigUpdate)
    ensures
        update@ == planned_update(uri@),
{
    let query = query_of_uri(uri);
    let params = parse_config_query(query);
    let ghost ps = params_view(params@);
    let n = params.len();
    let mut i: usize = 0;
    while i < n
        invariant
            i <= n,
            n == params@.len(),
            ps == params_view(params@),
            ps == query_params(uri_query(uri@)),
            forall|j: int| 0 <= j < i ==> !is_reset(#[trigger] ps[j]),
        decreases n - i,
    {
        assert(ps[i as int] == params@[i as int]@);
        if bytes_eq_str(params[i].key.as_slice(), "reset") && bytes_eq_str(
            params[i].value.as_slice(),
            "1",
        ) {
            assert(is_reset(ps[i as int]));
            return ConfigUpdate::Reset;
        }
        i = i + 1;
    }
    let ghost f = |p: (Seq<u8>, Seq<u8>)| change_of(p.0, p.1);
    let mut changes: Vec<ConfigChange> = Vec::new();
    let mut i: usize = 0;
    while i < n
        invariant
            i <= n,
            n == params@.len(),
            ps == params_view(params@),
            ps == query_params(uri_query(uri@)),
            forall|j: int| 0 <= j < n ==> !is_reset(#[trigger] ps[j]),
            f == (|p: (Seq<u8>, Seq<u8>)| change_of(p.0, p.1)),
            changes@.map_values(|c: ConfigChange| c@) == ps.take(i as int).filter_map(f),
        decreases n - i,
    {
        let ghost before = changes@.map_values(|c: ConfigChange| c@);
        assert(ps.take(i + 1).drop_last() =~= ps.take(i as int));
        assert(ps.take(i + 1).last() == params@[i as int]@);
        match change_of_param(&params[i]) {
            Some(c) => {
                changes.push(c);
                assert(changes@.map_values(|c: ConfigChange| c@) =~= before.push(c@));
            },
            None => {},
        }
        i = i + 1;
    }
    assert(ps.take(n as int) =~= ps);
    ConfigUpdate::Changes(changes)
}

/// The configuration after applying each change with its write outcome, in order.
pub open spec fn applied(c: ConfigView, changes: Seq<ChangeView>, outcomes: Seq<PersistOutcome>) -> ConfigView
    decreases changes.len(),
{
    if changes.len() == 0 {
        c
    } else {
        changed(
            applied(c, changes.drop_last(), outcomes.drop_last()),
            changes.last(),
            outcomes[changes.len() - 1],
        )
    }
}

/// Why a configuration request did not fully succeed.
#[derive(Clone, Copy, Debug, PartialEq, Eq, Structural)]
pub enum ConfigUpdateError {
    /// At least one value could not be written to storage.
    NotPersisted,
}

/// Carries out a configuration request, given the outcome of the storage write
/// of each of its changes (for a reset the caller removes the stored keys).
/// Fails exactly when some write did not succeed; every written change is kept.
pub fn handle_config_update(
    storage: &mut ConfigStorage,
    update: &ConfigUpdate,
    outcomes: &[PersistOutcome],
) -> (r: Result<(), ConfigUpdateError>)
    requires
        match update@ {
            UpdateView::Changes(cs) => outcomes@.len() == cs.len(),
            UpdateView::Reset => true,
        },
    ensures
        final(storage).defaults@ == old(storage).defaults@,
        match update@ {
            UpdateView::Reset => {
                &&& final(storage).current@ == old(storage).defaults@
                &&& r is Ok
            },
            UpdateView::Changes(cs) => {
                &&& final(storage).current@ == applied(old(storage).current@, cs, outcomes@)
                &&& (r is Ok <==> forall|i: int|
                    0 <= i < outcomes@.len() ==> outcomes@[i] == PersistOutcome::Written)
            },
        },
{
    match update {
        ConfigUpdate::Reset => {
            reset_all(storage);
            Ok(())
        },
        ConfigUpdate::Changes(changes) => {
            let ghost cs = changes@.map_values(|c: ConfigChange| c@);
            let ghost start = storage.current@;
            let n = changes.len();
            let mut failed = false;
            let mut i: usize = 0;
            while i < n
                invariant
                    i <= n,
                    n == changes@.len(),
                    n == outcomes@.len(),
                    cs == changes@.map_values(|c: ConfigChange| c@),
                    storage.defaults@ == old(storage).defaults@,
                    storage.current@ == applied(start, cs.take(i as int), outcomes@.take(i as int)),
                    failed <==> exists|j: int|
                        0 <= j < i && outcomes@[j] != PersistOutcome::Written,
                decreases n - i,
            {
                assert(cs.take(i + 1).drop_last() =~= cs.take(i as int));
                assert(outcomes@.take(i + 1).drop_last() =~= outcomes@.take(i as int));
                assert(cs.take(i + 1).last() == changes@[i as int]@);
                let ok = apply_change(storage, &changes[i], outcomes[i]);
                if !ok {
                    failed = true;
                }
                i = i + 1;
            }
            assert(cs.take(n as int) =~= cs);
            assert(outcomes@.take(n as int) =~= outcomes@);
            if failed {
                Err(ConfigUpdateError::NotPersisted)
            } else {
                Ok(())
            }
        },
    }
}

/// The settings as the configuration endpoint reports them.
pub struct ConfigResponse {
    pub http_api_key: String,
    pub battery_min_pct: u8,
    pub grace_ms: u16,
    pub motion_timeout_s: u16,
    pub gate_pulse_ms: u64,
    pub telemetry_interval_s: u64,
}

/// The effective settings, the API key in plain text: this report is meant
/// for the trusted network and carries no authentication.
pub fn config_response(storage: &ConfigStorage) -> (resp: ConfigResponse)
    ensures
        resp.http_api_key@ == storage.current.http_api_key@,
        resp.battery_min_pct == storage.current.battery_min_pct,
        resp.grace_ms == storage.current.grace_ms,
        resp.motion_timeout_s == storage.current.motion_timeout_s,
        resp.gate_pulse_ms == storage.current.gate_pulse_ms,
        resp.telemetry_interval_s == storage.current.telemetry_interval_s,
{
    ConfigResponse {
        http_api_key: http_api_key(storage),
        battery_min_pct: battery_min_pct(storage),
        grace_ms: grace_ms(storage),
        motion_timeout_s: motion_timeout_s(storage),
        gate_pulse_ms: gate_pulse_ms(storage),
        telemetry_interval_s: telemetry_interval_s(storage),
    }
}

} // verus!

verus! {

/// Text without `%` and `+` decodes to itself.
pub proof fn law_plain_text_decodes_to_itself(s: Seq<u8>)
    requires
        forall|i: int| 0 <= i < s.len() ==> s[i] != 37 && s[i] != 43,
    ensures
        url_decoded(s) == s,
    decreases s.len(),
{
    if s.len() > 0 {
        let rest = s.skip(1);
        assert forall|i: int| 0 <= i < rest.len() implies rest[i] != 37 && rest[i] != 43 by {
            assert(rest[i] == s[i + 1]);
        }
        law_plain_text_decodes_to_itself(rest);
        assert(seq![s[0]] + rest =~= s);
    }
}

/// Text without `%` decodes to itself with each `+` turned into a space.
pub proof fn law_plus_becomes_space(s: Seq<u8>)
    requires
        forall|i: int| 0 <= i < s.len() ==> s[i] != 37,
    ensures
        url_decoded(s) == s.map_values(|b: u8| if b == 43 { 32u8 } else { b }),
    decreases s.len(),
{
    let f = |b: u8| if b == 43 { 32u8 } else { b };
    if s.len() > 0 {
        let rest = s.skip(1);
        assert forall|i: int| 0 <= i < rest.len() implies rest[i] != 37 by {
            assert(rest[i] == s[i + 1]);
        }
        law_plus_becomes_space(rest);
        assert(seq![f(s[0])] + rest.map_values(f) =~= s.map_values(f));
    } else {
        assert(s.map_values(f) =~= Seq::<u8>::empty());
    }
}

/// Decoding never makes text longer.
pub proof fn law_decoding_never_lengthens(s: Seq<u8>)
    ensures
        url_decoded(s).len() <= s.len(),
    decreases s.len(),
{
    if s.len() > 0 {
        if s[0] == 37 && s.len() > 2 && spec_hex_val(s[1]) is Some && spec_hex_val(s[2]) is Some {
            law_decoding_never_lengthens(s.skip(3));
        } else {
            law_decoding_never_lengthens(s.skip(1));
        }
    }
}

/// A `%` followed by two hexadecimal digits decodes to the byte they spell.
pub proof fn law_percent_escape(hi: u8, lo: u8, rest: Seq<u8>)
    requires
        spec_hex_val(hi) is Some,
        spec_hex_val(lo) is Some,
    ensures
        url_decoded(seq![37u8, hi, lo] + rest) == seq![
            (spec_hex_val(hi).unwrap() * 16 + spec_hex_val(lo).unwrap()) as u8,
        ] + url_decoded(rest),
{
    let s = seq![37u8, hi, lo] + rest;
    assert(s.skip(3) =~= rest);
}

/// With no API key configured every request is authorised; with one, a
/// request without the key never is.
pub proof fn law_auth(key: Seq<char>, provided: Option<Seq<char>>)
    ensures
        key.len() == 0 ==> authorised(key, provided),
        key.len() > 0 && provided is None ==> !authorised(key, provided),
        key.len() > 0 && provided is Some && provided.unwrap() != key ==> !authorised(key, provided),
{
}

/// A request whose query carries `reset=1` resets, whatever else it asks for.
pub proof fn law_reset_wins(uri: Seq<u8>, i: int)
    requires
        0 <= i < query_params(uri_query(uri)).len(),
        is_reset(query_params(uri_query(uri))[i]),
    ensures
        planned_update(uri) == UpdateView::Reset,
{
}

/// Keys that differ as text differ as bytes.
proof fn lemma_distinct_keys(a: &str, b: &str)
    requires
        a@ != b@,
    ensures
        a.spec_bytes() != b.spec_bytes(),
{
    vstd::utf8::encode_utf8_decode_utf8(a@);
    vstd::utf8::encode_utf8_decode_utf8(b@);
}

/// Each setting accepts exactly the values of its documented range: a value
/// that parses is taken where it lies in the range and ignored otherwise; a
/// value that does not parse is ignored; the API key takes any text.
pub proof fn law_config_value_ranges(value: Seq<u8>)
    ensures
        change_of("http_api_key".spec_bytes(), value) == Some(
            ChangeView::HttpApiKey(utf8_lossy(value)),
        ),
        change_of("battery_min_pct".spec_bytes(), value) == match parse_unsigned(value, 255) {
            Some(v) => if v <= 100 {
                Some(ChangeView::BatteryMinPct(v as u8))
            } else {
                None
            },
            None => None,
        },
        change_of("grace_ms".spec_bytes(), value) == match parse_unsigned(value, 65535) {
            Some(v) => if v <= 60000 {
                Some(ChangeView::GraceMs(v as u16))
            } else {
                None
            },
            None => None,
        },
        change_of("motion_timeout_s".spec_bytes(), value) == match parse_unsigned(value, 65535) {
            Some(v) => if 1 <= v <= 300 {
                Some(ChangeView::MotionTimeoutS(v as u16))
            } else {
                None
            },
            None => None,
        },
        change_of("gate_pulse_ms".spec_bytes(), value) == match parse_unsigned(
            value,
            0xffff_ffff_ffff_ffff,
        ) {
            Some(v) => if 1 <= v <= 60000 {
                Some(ChangeView::GatePulseMs(v as u64))
            } else {
                None
            },
            None => None,
        },
        change_of("telemetry_interval_s".spec_bytes(), value) == match parse_unsigned(
            value,
            0xffff_ffff_ffff_ffff,
        ) {
            Some(v) => if 1 <= v <= 3600 {
                Some(ChangeView::TelemetryIntervalS(v as u64))
            } else {
                None
            },
            None => None,
        },
{
    reveal_strlit("http_api_key");
    reveal_strlit("battery_min_pct");
    reveal_strlit("grace_ms");
    reveal_strlit("motion_timeout_s");
    reveal_strlit("gate_pulse_ms");
    reveal_strlit("telemetry_interval_s");
    lemma_distinct_keys("battery_min_pct", "http_api_key");
    lemma_distinct_keys("grace_ms", "http_api_key");
    lemma_distinct_keys("grace_ms", "battery_min_pct");
    lemma_distinct_keys("motion_timeout_s", "http_api_key");
    lemma_distinct_keys("motion_timeout_s", "battery_min_pct");
    lemma_distinct_keys("motion_timeout_s", "grace_ms");
    lemma_distinct_keys("gate_pulse_ms", "http_api_key");
    lemma_distinct_keys("gate_pulse_ms", "battery_min_pct");
    lemma_distinct_keys("gate_pulse_ms", "grace_ms");
    lemma_distinct_keys("gate_pulse_ms", "motion_timeout_s");
    lemma_distinct_keys("telemetry_interval_s", "http_api_key");
    lemma_distinct_keys("telemetry_interval_s", "battery_min_pct");
    lemma_distinct_keys("telemetry_interval_s", "grace_ms");
    lemma_distinct_keys("telemetry_interval_s", "motion_timeout_s");
    lemma_distinct_keys("telemetry_interval_s", "gate_pulse_ms");
}

} // verus!
