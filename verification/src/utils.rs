use vstd::prelude::*;

use vstd::string::*;

use crate::errors::{DiscordRPCError, Result};
use crate::json::{json_text, JsonModel, JsonValue};

verus! {

/// The four little-endian bytes of `x`.
pub open spec fn le_bytes(x: u32) -> Seq<u8> {
    seq![
        (x & 0xff) as u8,
        ((x >> 8) & 0xff) as u8,
        ((x >> 16) & 0xff) as u8,
        ((x >> 24) & 0xff) as u8,
    ]
}

/// The `u32` whose little-endian bytes are the first four of `b`.
pub open spec fn le_value(b: Seq<u8>) -> u32
    recommends
        b.len() >= 4,
{
    (b[0] as u32) | (b[1] as u32) << 8 | (b[2] as u32) << 16 | (b[3] as u32) << 24
}

/// The eight-byte header of a frame: the opcode, then the payload length,
/// each as a little-endian `u32`.
pub open spec fn header_bytes(opcode: u32, data_len: u32) -> Seq<u8> {
    le_bytes(opcode) + le_bytes(data_len)
}

/// Appends the little-endian bytes of `x` to `bytes`.
fn push_le(bytes: &mut Vec<u8>, x: u32)
    ensures
        final(bytes)@ == old(bytes)@ + le_bytes(x),
{
    bytes.push((x & 0xff) as u8);
    bytes.push(((x >> 8) & 0xff) as u8);
    bytes.push(((x >> 16) & 0xff) as u8);
    bytes.push(((x >> 24) & 0xff) as u8);
}

/// Builds the header of a frame: `opcode` then `data_len`, both little endian.
/// It never fails.
pub fn pack(opcode: u32, data_len: u32) -> (res: Result<Vec<u8>>)
    ensures
        res matches Ok(bytes) && bytes@ == header_bytes(opcode, data_len),
{
    let mut bytes: Vec<u8> = Vec::new();
    push_le(&mut bytes, opcode);
    push_le(&mut bytes, data_len);
    Ok(bytes)
}

/// `<[u8; 4]>::try_from(&[u8])`: succeeds exactly on a slice of length four,
/// with the slice's bytes in order; its error is the standard library's.
#[verifier::external_body]
fn slice_to_array4(s: &[u8]) -> (res: core::result::Result<[u8; 4], std::array::TryFromSliceError>)
    ensures
        res is Ok <==> s@.len() == 4,
        res matches Ok(a) ==> a@ == s@,
{
    s.try_into()
}

/// `u32::from_le_bytes`, written out.
fn u32_from_le(a: [u8; 4]) -> (x: u32)
    ensures
        x == le_value(a@),
{
    (a[0] as u32) | (a[1] as u32) << 8 | (a[2] as u32) << 16 | (a[3] as u32) << 24
}

/// Reads a frame header back: the first four bytes are the opcode, the rest
/// the payload length. The header must be exactly eight bytes long; any other
/// length of at least four bytes is refused with `TryFromSlice`.
pub fn unpack(data: Vec<u8>) -> (res: Result<(u32, u32)>)
    requires
        data@.len() >= 4,
    ensures
        res is Ok <==> data@.len() == 8,
        res matches Ok((opcode, data_len)) ==> {
            &&& opcode == le_value(data@)
            &&& data_len == le_value(data@.subrange(4, 8))
        },
        res matches Err(e) ==> e is TryFromSlice,
{
    let data = data.as_slice();
    let (opcode, header) = data.split_at(4);
    let opcode = match slice_to_array4(opcode) {
        Ok(a) => a,
        Err(e) => return Err(DiscordRPCError::TryFromSlice(e)),
    };
    let header = match slice_to_array4(header) {
        Ok(a) => a,
        Err(e) => return Err(DiscordRPCError::TryFromSlice(e)),
    };
    Ok((u32_from_le(opcode), u32_from_le(header)))
}

/// `c` is a digit or one of the letters `a` to `f`.
pub open spec fn is_lower_hex(c: char) -> bool {
    ('0' <= c <= '9') || ('a' <= c <= 'f')
}

/// `s` is the hyphenated lower-case text of a random (version 4) UUID:
/// 8-4-4-4-12 hex digits, the version digit `4` and an RFC 4122 variant digit.
pub open spec fn is_uuid_v4_text(s: Seq<char>) -> bool {
    &&& s.len() == 36
    &&& forall|i: int|
        0 <= i < 36 ==> if i == 8 || i == 13 || i == 18 || i == 23 {
            s[i] == '-'
        } else {
            is_lower_hex(#[trigger] s[i])
        }
    &&& s[14] == '4'
    &&& (s[19] == '8' || s[19] == '9' || s[19] == 'a' || s[19] == 'b')
}

/// `uuid::Uuid::new_v4().to_string()`: a fresh random UUID in its hyphenated
/// lower-case text form. Which UUID comes out is chance; only its shape is
/// stated.
#[verifier::external_body]
fn new_uuid_v4_text() -> (s: String)
    ensures
        is_uuid_v4_text(s@),
{
    uuid::Uuid::new_v4().to_string()
}

/// The object `m` with `"nonce"` set to the string `nonce`.
pub open spec fn with_nonce(m: JsonModel, nonce: Seq<char>) -> JsonModel {
    match m {
        JsonModel::Object(fields) => JsonModel::Object(fields.insert("nonce"@, JsonModel::Str(nonce))),
        _ => m,
    }
}

/// `res` is the JSON text of `m`, as `serde_json` writes it.
pub open spec fn is_json_of(res: Result<String>, m: JsonModel) -> bool {
    res matches Ok(s) && s@ == json_text(m)
}

/// Sets `"nonce"` of the object `value` to `nonce` and serialises the result.
/// The value must be an object.
pub fn create_json_with_nonce(value: &mut JsonValue, nonce: String) -> (res: Result<String>)
    requires
        *old(value) is Object,
    ensures
        *final(value) is Object,
        final(value).model() == with_nonce(old(value).model(), nonce@),
        is_json_of(res, final(value).model()),
{
    value.insert(String::from_str("nonce"), JsonValue::String(nonce));
    value.to_json_string()
}

/// Sets `"nonce"` of the object `value` to a fresh random UUID and serialises
/// the result. The value must be an object.
pub fn create_json(value: &mut JsonValue) -> (res: Result<String>)
    requires
        *old(value) is Object,
    ensures
        *final(value) is Object,
        exists|nonce: Seq<char>|
            is_uuid_v4_text(nonce) && final(value).model() == with_nonce(old(value).model(), nonce),
        is_json_of(res, final(value).model()),
{
    let uuid = new_uuid_v4_text();
    create_json_with_nonce(value, uuid)
}

/// The views of a list of strings.
pub open spec fn views(v: Seq<String>) -> Seq<Seq<char>> {
    v.map_values(|s: String| s@)
}

/// The pipe name prefix of a Discord client on Windows.
pub open spec fn windows_pipe_prefix() -> Seq<char> {
    "\\\\?\\pipe\\discord-ipc-"@
}

/// The pipe name prefix of a Discord client on Unix.
pub open spec fn unix_pipe_prefix() -> Seq<char> {
    "/tmp/discord-ipc-"@
}

/// Where a Discord client may have put its pipe: the system's place on
/// Windows and on Unix; under `TMPDIR` where it is set (macOS keeps its
/// pipes there); under `XDG_RUNTIME_DIR` where it is set, both for a Flatpak
/// installation and for a plain one. Each place is a prefix to which the
/// pipe's index is appended.
pub open spec fn pipe_prefix_set(
    windows: bool,
    unix: bool,
    tmpdir: Option<Seq<char>>,
    xdg_runtime_dir: Option<Seq<char>>,
) -> Set<Seq<char>> {
    let a = if windows { set![windows_pipe_prefix()] } else { Set::empty() };
    let b = if unix { a.insert(unix_pipe_prefix()) } else { a };
    let c = match tmpdir {
        Some(dir) => b.insert(dir + "/discord-ipc-"@),
        None => b,
    };
    match xdg_runtime_dir {
        Some(dir) => c.insert(dir + "/app/com.discordapp.Discord/discord-ipc-"@).insert(
            dir + "/discord-ipc-"@,
        ),
        None => c,
    }
}

/// Pushing an element adds it to the sequence's set of elements.
proof fn lemma_push_to_set<A>(s: Seq<A>, x: A)
    ensures
        s.push(x).to_set() == s.to_set().insert(x),
{
    let t = s.push(x);
    assert forall|y: A| #[trigger] t.to_set().contains(y) == s.to_set().insert(x).contains(y) by {
        if s.contains(y) {
            let k = choose|k: int| 0 <= k < s.len() && s[k] == y;
            assert(t[k] == y);
        }
        if y == x {
            assert(t[s.len() as int] == y);
        }
        if t.contains(y) {
            let k = choose|k: int| 0 <= k < t.len() && t[k] == y;
            if k < s.len() {
                assert(s[k] == y);
            }
        }
    }
    assert(t.to_set() =~= s.to_set().insert(x));
}

/// Adds `s` to `v` unless a string with the same characters is there.
fn insert_unique(v: &mut Vec<String>, s: String)
    requires
        views(old(v)@).no_duplicates(),
    ensures
        views(final(v)@).no_duplicates(),
        views(final(v)@).to_set() == views(old(v)@).to_set().insert(s@),
{
    let ghost before = views(v@);
    let mut i: usize = 0;
    while i < v.len()
        invariant
            i <= v@.len(),
            views(v@) == before,
            before.no_duplicates(),
            forall|j: int| 0 <= j < i ==> v@[j]@ != s@,
        decreases v@.len() - i,
    {
        if v[i] == s {
            proof {
                assert(views(v@)[i as int] == s@);
                assert(before.to_set().insert(s@) =~= before.to_set());
            }
            return;
        }
        i = i + 1;
    }
    v.push(s);
    proof {
        let after = views(v@);
        assert(after =~= before.push(s@));
        assert(!before.contains(s@)) by {
            if before.contains(s@) {
                let k = choose|k: int| 0 <= k < before.len() && before[k] == s@;
                assert(v@[k]@ == s@);
            }
        }
        lemma_push_to_set(before, s@);
    }
}

/// The prefixes of the places where a Discord client may have put its pipe,
/// each once. They form a set; it is held in a `Vec` without repeats because
/// vstd specifies `std::collections::HashSet` only for key types that
/// `obeys_key_model`, which vstd establishes for integers and `bool` but not
/// for `String`, and this library cannot assume it. `windows` and `unix` tell the platform; `tmpdir` and
/// `xdg_runtime_dir` are the values of the environment variables `TMPDIR`
/// and `XDG_RUNTIME_DIR`, where they are set.
pub fn pipe_prefixes(
    windows: bool,
    unix: bool,
    tmpdir: Option<String>,
    xdg_runtime_dir: Option<String>,
) -> (res: Vec<String>)
    ensures
        views(res@).no_duplicates(),
        views(res@).to_set() == pipe_prefix_set(
            windows,
            unix,
            match tmpdir {
                Some(d) => Some(d@),
                None => None,
            },
            match xdg_runtime_dir {
                Some(d) => Some(d@),
                None => None,
            },
        ),
{
    let mut possible_paths: Vec<String> = Vec::new();
    proof {
        assert(views(possible_paths@).to_set() =~= Set::empty());
    }
    if windows {
        insert_unique(&mut possible_paths, String::from_str("\\\\?\\pipe\\discord-ipc-"));
    }
    if unix {
        insert_unique(&mut possible_paths, String::from_str("/tmp/discord-ipc-"));
    }
    match tmpdir {
        Some(dir) => insert_unique(&mut possible_paths, dir.concat("/discord-ipc-")),
        None => {},
    }
    match xdg_runtime_dir {
        Some(dir) => {
            insert_unique(
                &mut possible_paths,
                dir.clone().concat("/app/com.discordapp.Discord/discord-ipc-"),
            );
            insert_unique(&mut possible_paths, dir.concat("/discord-ipc-"));
        },
        None => {},
    }
    possible_paths
}

/// The decimal digit `i`, for `i` below ten.
pub open spec fn digit_char(i: int) -> char {
    seq!['0', '1', '2', '3', '4', '5', '6', '7', '8', '9'][i]
}

/// Every prefix followed by the digit `i`, in the order of the prefixes.
pub open spec fn candidates_for(prefixes: Seq<Seq<char>>, i: int) -> Seq<Seq<char>> {
    prefixes.map_values(|p: Seq<char>| p + seq![digit_char(i)])
}

/// The pipe paths to try, in order: index 0 under every prefix, then index 1
/// under every prefix, and so on up to index `count - 1`.
pub open spec fn pipe_candidate_list(prefixes: Seq<Seq<char>>, count: nat) -> Seq<Seq<char>>
    decreases count,
{
    if count == 0 {
        Seq::empty()
    } else {
        pipe_candidate_list(prefixes, (count - 1) as nat) + candidates_for(prefixes, count - 1)
    }
}

/// The pipe paths to try, in order: the indices 0 to 9, and for each index
/// every prefix in the order given.
pub fn pipe_candidates(prefixes: &Vec<String>) -> (res: Vec<String>)
    ensures
        views(res@) == pipe_candidate_list(views(prefixes@), 10),
{
    let digits = "0123456789";
    proof {
        reveal_strlit("0123456789");
    }
    let mut res: Vec<String> = Vec::new();
    let mut i: usize = 0;
    while i < 10
        invariant
            i <= 10,
            digits@ == seq!['0', '1', '2', '3', '4', '5', '6', '7', '8', '9'],
            views(res@) == pipe_candidate_list(views(prefixes@), i as nat),
        decreases 10 - i,
    {
        let digit = digits.substring_char(i, i + 1);
        let ghost start = views(res@);
        let mut j: usize = 0;
        while j < prefixes.len()
            invariant
                i < 10,
                j <= prefixes@.len(),
                digit@ == seq![digit_char(i as int)],
                views(res@) == start + candidates_for(views(prefixes@), i as int).subrange(0, j as int),
            decreases prefixes@.len() - j,
        {
            let path = prefixes[j].clone().concat(digit);
            let ghost prev = views(res@);
            res.push(path);
            proof {
                assert(views(res@) =~= prev.push(path@));
                assert(candidates_for(views(prefixes@), i as int)[j as int] == path@);
                assert(views(res@) =~= start + candidates_for(views(prefixes@), i as int).subrange(
                    0,
                    j + 1,
                ));
            }
            j = j + 1;
        }
        proof {
            assert(candidates_for(views(prefixes@), i as int).subrange(0, j as int) =~= candidates_for(
                views(prefixes@),
                i as int,
            ));
        }
        i = i + 1;
    }
    res
}

/// Bytes of a `u32` read back give the `u32`.
proof fn lemma_le_value_le_bytes(x: u32)
    ensures
        le_value(le_bytes(x)) == x,
{
    assert(x == ((x & 0xff) as u8 as u32) | ((((x >> 8) & 0xff) as u8) as u32) << 8
        | ((((x >> 16) & 0xff) as u8) as u32) << 16 | ((((x >> 24) & 0xff) as u8) as u32) << 24)
        by (bit_vector);
}

/// A `u32` read from four bytes gives those bytes back.
proof fn lemma_le_bytes_le_value(b: Seq<u8>)
    requires
        b.len() == 4,
    ensures
        le_bytes(le_value(b)) == b,
{
    let (b0, b1, b2, b3) = (b[0], b[1], b[2], b[3]);
    let x = le_value(b);
    assert(x == (b0 as u32) | (b1 as u32) << 8 | (b2 as u32) << 16 | (b3 as u32) << 24);
    assert({
        let y = (b0 as u32) | (b1 as u32) << 8 | (b2 as u32) << 16 | (b3 as u32) << 24;
        &&& (y & 0xff) as u8 == b0
        &&& ((y >> 8) & 0xff) as u8 == b1
        &&& ((y >> 16) & 0xff) as u8 == b2
        &&& ((y >> 24) & 0xff) as u8 == b3
    }) by (bit_vector);
    assert(le_bytes(x) =~= b);
}

/// A header built by `pack` is eight bytes long, and `unpack` reads from it
/// the opcode and the length that were packed.
pub proof fn lemma_unpack_pack(opcode: u32, data_len: u32)
    ensures
        header_bytes(opcode, data_len).len() == 8,
        le_value(header_bytes(opcode, data_len)) == opcode,
        le_value(header_bytes(opcode, data_len).subrange(4, 8)) == data_len,
{
    let h = header_bytes(opcode, data_len);
    lemma_le_value_le_bytes(opcode);
    lemma_le_value_le_bytes(data_len);
    assert(h.subrange(4, 8) =~= le_bytes(data_len));
    assert(le_value(h) == le_value(le_bytes(opcode)));
}

/// Packing the opcode and length that `unpack` reads from an eight-byte
/// header gives back the same eight bytes.
pub proof fn lemma_pack_unpack(header: Seq<u8>)
    requires
        header.len() == 8,
    ensures
        header_bytes(le_value(header), le_value(header.subrange(4, 8))) == header,
{
    let lo = header.subrange(0, 4);
    let hi = header.subrange(4, 8);
    lemma_le_bytes_le_value(lo);
    lemma_le_bytes_le_value(hi);
    assert(le_value(lo) == le_value(header));
    assert(header =~= lo + hi);
}

/// Adding the nonce to an object sets `"nonce"` to the given string and
/// leaves every other key, with its value, as it was.
pub proof fn lemma_with_nonce(fields: Map<Seq<char>, JsonModel>, nonce: Seq<char>)
    ensures
        with_nonce(JsonModel::Object(fields), nonce) is Object,
        with_nonce(JsonModel::Object(fields), nonce)->Object_0.dom() == fields.dom().insert("nonce"@),
        with_nonce(JsonModel::Object(fields), nonce)->Object_0["nonce"@] == JsonModel::Str(nonce),
        forall|k: Seq<char>|
            k != "nonce"@ && #[trigger] fields.dom().contains(k) ==> with_nonce(
                JsonModel::Object(fields),
                nonce,
            )->Object_0[k] == fields[k],
{
}

/// The header's bytes are the numbers in base 256, least significant first.
pub proof fn lemma_le_bytes_arith(x: u32)
    ensures
        le_bytes(x).len() == 4,
        le_bytes(x)[0] == x % 256,
        le_bytes(x)[1] == (x / 256) % 256,
        le_bytes(x)[2] == (x / 65536) % 256,
        le_bytes(x)[3] == x / 16777216,
{
    assert((x & 0xff) as u8 == x % 256 && ((x >> 8) & 0xff) as u8 == (x / 256) % 256 && ((x >> 16)
        & 0xff) as u8 == (x / 65536) % 256 && ((x >> 24) & 0xff) as u8 == x / 16777216)
        by (bit_vector);
}

/// A header field is read as a number in base 256, least significant byte
/// first.
pub proof fn lemma_le_value_arith(b: Seq<u8>)
    requires
        b.len() >= 4,
    ensures
        le_value(b) == b[0] + 256 * b[1] + 65536 * b[2] + 16777216 * b[3],
{
    let (b0, b1, b2, b3) = (b[0], b[1], b[2], b[3]);
    assert((b0 as u32) | (b1 as u32) << 8 | (b2 as u32) << 16 | (b3 as u32) << 24 == b0 + 256 * b1
        + 65536 * b2 + 16777216 * b3) by (bit_vector);
}

/// Every source of pipe names contributes its prefixes on its own: the
/// platform's place, `TMPDIR` (whatever `XDG_RUNTIME_DIR` is) and both
/// places under `XDG_RUNTIME_DIR` (whatever `TMPDIR` is); and nothing else
/// is a prefix.
pub proof fn lemma_pipe_prefix_sources(
    windows: bool,
    unix: bool,
    tmpdir: Option<Seq<char>>,
    xdg_runtime_dir: Option<Seq<char>>,
)
    ensures
        windows ==> pipe_prefix_set(windows, unix, tmpdir, xdg_runtime_dir).contains(
            "\\\\?\\pipe\\discord-ipc-"@,
        ),
        unix ==> pipe_prefix_set(windows, unix, tmpdir, xdg_runtime_dir).contains(
            "/tmp/discord-ipc-"@,
        ),
        tmpdir matches Some(t) ==> pipe_prefix_set(windows, unix, tmpdir, xdg_runtime_dir).contains(
            t + "/discord-ipc-"@,
        ),
        xdg_runtime_dir matches Some(d) ==> pipe_prefix_set(
            windows,
            unix,
            tmpdir,
            xdg_runtime_dir,
        ).contains(d + "/app/com.discordapp.Discord/discord-ipc-"@),
        xdg_runtime_dir matches Some(d) ==> pipe_prefix_set(
            windows,
            unix,
            tmpdir,
            xdg_runtime_dir,
        ).contains(d + "/discord-ipc-"@),
        forall|p: Seq<char>|
            #[trigger] pipe_prefix_set(windows, unix, tmpdir, xdg_runtime_dir).contains(p) ==> {
                ||| windows && p == "\\\\?\\pipe\\discord-ipc-"@
                ||| unix && p == "/tmp/discord-ipc-"@
                ||| tmpdir matches Some(t) && p == t + "/discord-ipc-"@
                ||| xdg_runtime_dir matches Some(d) && p == d
                    + "/app/com.discordapp.Discord/discord-ipc-"@
                ||| xdg_runtime_dir matches Some(d) && p == d + "/discord-ipc-"@
            },
{
}

/// The digit appended for index `i` is the decimal digit of `i`.
pub proof fn lemma_digit_chars()
    ensures
        forall|i: int| 0 <= i < 10 ==> #[trigger] digit_char(i) as int == '0' as int + i,
{
    assert forall|i: int| 0 <= i < 10 implies #[trigger] digit_char(i) as int == '0' as int + i by {
        if i == 0 {
        } else if i == 1 {
        } else if i == 2 {
        } else if i == 3 {
        } else if i == 4 {
        } else if i == 5 {
        } else if i == 6 {
        } else if i == 7 {
        } else if i == 8 {
        } else {
        }
    }
}

/// The candidates are tried index by index: the `j`-th prefix with index
/// `i` comes at position `i * n + j`, where `n` is the number of prefixes, and
/// there are `count * n` candidates.
pub proof fn lemma_pipe_candidate_order(prefixes: Seq<Seq<char>>, count: nat)
    ensures
        pipe_candidate_list(prefixes, count).len() == count * prefixes.len(),
        forall|i: int, j: int|
            0 <= i < count && 0 <= j < prefixes.len() ==> #[trigger] pipe_candidate_list(
                prefixes,
                count,
            )[i * prefixes.len() + j] == prefixes[j] + seq![digit_char(i)],
    decreases count,
{
    let n = prefixes.len();
    if count > 0 {
        let c1 = (count - 1) as nat;
        lemma_pipe_candidate_order(prefixes, c1);
        let prev = pipe_candidate_list(prefixes, c1);
        let last = candidates_for(prefixes, c1 as int);
        assert(count * n == c1 * n + n) by (nonlinear_arith)
            requires
                count == c1 + 1,
        ;
        assert forall|i: int, j: int| 0 <= i < count && 0 <= j < n implies #[trigger]
            pipe_candidate_list(prefixes, count)[i * n + j] == prefixes[j] + seq![digit_char(i)] by {
            if i < c1 {
                assert(i * n + j < c1 * n) by (nonlinear_arith)
                    requires
                        0 <= i < c1,
                        0 <= j < n,
                ;
                assert(i * n + j >= 0) by (nonlinear_arith)
                    requires
                        0 <= i,
                        0 <= j,
                        n >= 0,
                ;
            } else {
                assert(i * n == c1 * n);
            }
        }
    }
}

/// The views of a list of strings are the strings' characters, one entry
/// per string, in order.
pub proof fn lemma_views(v: Seq<String>)
    ensures
        views(v).len() == v.len(),
        forall|k: int| 0 <= k < v.len() ==> #[trigger] views(v)[k] == v[k]@,
{
}

} // verus!
