//! The standard HTTP methods as label values: which slot each has in a
//! vector of the metrics crate.

use crate::instruments::counted;
use crate::instruments::hash_of;
use crate::instruments::label_slot;
use crate::instruments::sampled;
use crate::instruments::HASH_PRIME;
use vstd::prelude::*;
use vstd::utf8::encode_utf8;
use vstd::utf8::is_ascii_chars_encode_utf8;

verus! {

/// Whether a text is one of the standard HTTP methods.
pub open spec fn is_standard_method(method: Seq<char>) -> bool {
    method == "GET"@ || method == "POST"@ || method == "PUT"@ || method == "DELETE"@ || method
        == "PATCH"@ || method == "HEAD"@ || method == "OPTIONS"@ || method == "CONNECT"@ || method
        == "TRACE"@
}

/// The hash of the first bytes of a text with one byte more: one step from
/// the hash of those before. `mixed` is the hash so far with the byte mixed
/// in, which the caller works out.
proof fn one_more(bytes: Seq<u8>, k: int, before: u64, mixed: u64, after: u64)
    requires
        0 <= k < bytes.len(),
        hash_of(bytes.take(k)) == before,
        before ^ (bytes[k] as u64) == mixed,
        (mixed * HASH_PRIME) % 0x1_0000_0000_0000_0000 == after,
    ensures
        hash_of(bytes.take(k + 1)) == after,
{
    assert(bytes.take(k + 1).drop_last() =~= bytes.take(k));
    assert(bytes.take(k + 1).last() == bytes[k]);
}

proof fn slot_of_get()
    ensures
        label_slot("GET"@) == 0xea7e631998067e17,
{
    reveal_strlit("GET");
    is_ascii_chars_encode_utf8("GET"@);
    let bytes = encode_utf8("GET"@);
    assert(0xcbf29ce484222325u64 ^ 0x47u64 == 0xcbf29ce484222362u64) by (bit_vector);
    one_more(bytes, 0, 0xcbf29ce484222325, 0xcbf29ce484222362, 0xaf63fa4c86021f86);
    assert(0xaf63fa4c86021f86u64 ^ 0x45u64 == 0xaf63fa4c86021fc3u64) by (bit_vector);
    one_more(bytes, 1, 0xaf63fa4c86021f86, 0xaf63fa4c86021fc3, 0x09021307b59bf859);
    assert(0x09021307b59bf859u64 ^ 0x54u64 == 0x09021307b59bf80du64) by (bit_vector);
    one_more(bytes, 2, 0x09021307b59bf859, 0x09021307b59bf80d, 0xea7e631998067e17);
    assert(bytes.take(3) =~= bytes);
}

proof fn slot_of_post()
    ensures
        label_slot("POST"@) == 0xa048aa190bf19f87,
{
    reveal_strlit("POST");
    is_ascii_chars_encode_utf8("POST"@);
    let bytes = encode_utf8("POST"@);
    assert(0xcbf29ce484222325u64 ^ 0x50u64 == 0xcbf29ce484222375u64) by (bit_vector);
    one_more(bytes, 0, 0xcbf29ce484222325, 0xcbf29ce484222375, 0xaf640d4c86023fcf);
    assert(0xaf640d4c86023fcfu64 ^ 0x4fu64 == 0xaf640d4c86023f80u64) by (bit_vector);
    one_more(bytes, 1, 0xaf640d4c86023fcf, 0xaf640d4c86023f80, 0x09421907b5d1e680);
    assert(0x09421907b5d1e680u64 ^ 0x53u64 == 0x09421907b5d1e6d3u64) by (bit_vector);
    one_more(bytes, 2, 0x09421907b5d1e680, 0x09421907b5d1e6d3, 0x8d375b19f3ab3889);
    assert(0x8d375b19f3ab3889u64 ^ 0x54u64 == 0x8d375b19f3ab38ddu64) by (bit_vector);
    one_more(bytes, 3, 0x8d375b19f3ab3889, 0x8d375b19f3ab38dd, 0xa048aa190bf19f87);
    assert(bytes.take(4) =~= bytes);
}

proof fn slot_of_put()
    ensures
        label_slot("PUT"@) == 0x8d8fb019f3f63ece,
{
    reveal_strlit("PUT");
    is_ascii_chars_encode_utf8("PUT"@);
    let bytes = encode_utf8("PUT"@);
    assert(0xcbf29ce484222325u64 ^ 0x50u64 == 0xcbf29ce484222375u64) by (bit_vector);
    one_more(bytes, 0, 0xcbf29ce484222325, 0xcbf29ce484222375, 0xaf640d4c86023fcf);
    assert(0xaf640d4c86023fcfu64 ^ 0x55u64 == 0xaf640d4c86023f9au64) by (bit_vector);
    one_more(bytes, 1, 0xaf640d4c86023fcf, 0xaf640d4c86023f9a, 0x09423307b5d212ae);
    assert(0x09423307b5d212aeu64 ^ 0x54u64 == 0x09423307b5d212fau64) by (bit_vector);
    one_more(bytes, 2, 0x09423307b5d212ae, 0x09423307b5d212fa, 0x8d8fb019f3f63ece);
    assert(bytes.take(3) =~= bytes);
}

proof fn slot_of_delete()
    ensures
        label_slot("DELETE"@) == 0x5cd15819e278608a,
{
    reveal_strlit("DELETE");
    is_ascii_chars_encode_utf8("DELETE"@);
    let bytes = encode_utf8("DELETE"@);
    assert(0xcbf29ce484222325u64 ^ 0x44u64 == 0xcbf29ce484222361u64) by (bit_vector);
    one_more(bytes, 0, 0xcbf29ce484222325, 0xcbf29ce484222361, 0xaf63f94c86021dd3);
    assert(0xaf63f94c86021dd3u64 ^ 0x45u64 == 0xaf63f94c86021d96u64) by (bit_vector);
    one_more(bytes, 1, 0xaf63f94c86021dd3, 0xaf63f94c86021d96, 0x08fe3307b59845e2);
    assert(0x08fe3307b59845e2u64 ^ 0x4cu64 == 0x08fe3307b59845aeu64) by (bit_vector);
    one_more(bytes, 2, 0x08fe3307b59845e2, 0x08fe3307b59845ae, 0xe036641991be66aa);
    assert(0xe036641991be66aau64 ^ 0x45u64 == 0xe036641991be66efu64) by (bit_vector);
    one_more(bytes, 3, 0xe036641991be66aa, 0xe036641991be66ef, 0xbad30672a688e81d);
    assert(0xbad30672a688e81du64 ^ 0x54u64 == 0xbad30672a688e849u64) by (bit_vector);
    one_more(bytes, 4, 0xbad30672a688e81d, 0xbad30672a688e849, 0xfd7c3dd0faa2b40b);
    assert(0xfd7c3dd0faa2b40bu64 ^ 0x45u64 == 0xfd7c3dd0faa2b44eu64) by (bit_vector);
    one_more(bytes, 5, 0xfd7c3dd0faa2b40b, 0xfd7c3dd0faa2b44e, 0x5cd15819e278608a);
    assert(bytes.take(6) =~= bytes);
}

proof fn slot_of_patch()
    ensures
        label_slot("PATCH"@) == 0xbebf4d0191bc5a49,
{
    reveal_strlit("PATCH");
    is_ascii_chars_encode_utf8("PATCH"@);
    let bytes = encode_utf8("PATCH"@);
    assert(0xcbf29ce484222325u64 ^ 0x50u64 == 0xcbf29ce484222375u64) by (bit_vector);
    one_more(bytes, 0, 0xcbf29ce484222325, 0xcbf29ce484222375, 0xaf640d4c86023fcf);
    assert(0xaf640d4c86023fcfu64 ^ 0x41u64 == 0xaf640d4c86023f8eu64) by (bit_vector);
    one_more(bytes, 1, 0xaf640d4c86023fcf, 0xaf640d4c86023f8e, 0x09422707b5d1fe4a);
    assert(0x09422707b5d1fe4au64 ^ 0x54u64 == 0x09422707b5d1fe1eu64) by (bit_vector);
    one_more(bytes, 2, 0x09422707b5d1fe4a, 0x09422707b5d1fe1e, 0x8d667019f3d2ccfa);
    assert(0x8d667019f3d2ccfau64 ^ 0x43u64 == 0x8d667019f3d2ccb9u64) by (bit_vector);
    one_more(bytes, 3, 0x8d667019f3d2ccfa, 0x8d667019f3d2ccb9, 0x17dd35194f31de5b);
    assert(0x17dd35194f31de5bu64 ^ 0x48u64 == 0x17dd35194f31de13u64) by (bit_vector);
    one_more(bytes, 4, 0x17dd35194f31de5b, 0x17dd35194f31de13, 0xbebf4d0191bc5a49);
    assert(bytes.take(5) =~= bytes);
}

proof fn slot_of_head()
    ensures
        label_slot("HEAD"@) == 0x4b9253d8ff1ee183,
{
    reveal_strlit("HEAD");
    is_ascii_chars_encode_utf8("HEAD"@);
    let bytes = encode_utf8("HEAD"@);
    assert(0xcbf29ce484222325u64 ^ 0x48u64 == 0xcbf29ce48422236du64) by (bit_vector);
    one_more(bytes, 0, 0xcbf29ce484222325, 0xcbf29ce48422236d, 0xaf64054c86023237);
    assert(0xaf64054c86023237u64 ^ 0x45u64 == 0xaf64054c86023272u64) by (bit_vector);
    one_more(bytes, 1, 0xaf64054c86023237, 0xaf64054c86023272, 0x09277307b5bbb7b6);
    assert(0x09277307b5bbb7b6u64 ^ 0x41u64 == 0x09277307b5bbb7f7u64) by (bit_vector);
    one_more(bytes, 2, 0x09277307b5bbb7b6, 0x09277307b5bbb7f7, 0x49c06d19cdf998b5);
    assert(0x49c06d19cdf998b5u64 ^ 0x44u64 == 0x49c06d19cdf998f1u64) by (bit_vector);
    one_more(bytes, 3, 0x49c06d19cdf998b5, 0x49c06d19cdf998f1, 0x4b9253d8ff1ee183);
    assert(bytes.take(4) =~= bytes);
}

proof fn slot_of_options()
    ensures
        label_slot("OPTIONS"@) == 0x87cc05b46a17cf65,
{
    reveal_strlit("OPTIONS");
    is_ascii_chars_encode_utf8("OPTIONS"@);
    let bytes = encode_utf8("OPTIONS"@);
    assert(0xcbf29ce484222325u64 ^ 0x4fu64 == 0xcbf29ce48422236au64) by (bit_vector);
    one_more(bytes, 0, 0xcbf29ce484222325, 0xcbf29ce48422236a, 0xaf64024c86022d1e);
    assert(0xaf64024c86022d1eu64 ^ 0x50u64 == 0xaf64024c86022d4eu64) by (bit_vector);
    one_more(bytes, 1, 0xaf64024c86022d1e, 0xaf64024c86022d4e, 0x091d3607b5b2fb8a);
    assert(0x091d3607b5b2fb8au64 ^ 0x54u64 == 0x091d3607b5b2fbdeu64) by (bit_vector);
    one_more(bytes, 2, 0x091d3607b5b2fb8a, 0x091d3607b5b2fbde, 0x2f9ead19bf21fa3a);
    assert(0x2f9ead19bf21fa3au64 ^ 0x49u64 == 0x2f9ead19bf21fa73u64) by (bit_vector);
    one_more(bytes, 3, 0x2f9ead19bf21fa3a, 0x2f9ead19bf21fa73, 0x0c9a95bfc6bc9169);
    assert(0x0c9a95bfc6bc9169u64 ^ 0x4fu64 == 0x0c9a95bfc6bc9126u64) by (bit_vector);
    one_more(bytes, 4, 0x0c9a95bfc6bc9169, 0x0c9a95bfc6bc9126, 0x273d9adeb26aa392);
    assert(0x273d9adeb26aa392u64 ^ 0x4eu64 == 0x273d9adeb26aa3dcu64) by (bit_vector);
    one_more(bytes, 5, 0x273d9adeb26aa392, 0x273d9adeb26aa3dc, 0x185204692b346ed4);
    assert(0x185204692b346ed4u64 ^ 0x53u64 == 0x185204692b346e87u64) by (bit_vector);
    one_more(bytes, 6, 0x185204692b346ed4, 0x185204692b346e87, 0x87cc05b46a17cf65);
    assert(bytes.take(7) =~= bytes);
}

proof fn slot_of_connect()
    ensures
        label_slot("CONNECT"@) == 0xc09b4a14fc824b19,
{
    reveal_strlit("CONNECT");
    is_ascii_chars_encode_utf8("CONNECT"@);
    let bytes = encode_utf8("CONNECT"@);
    assert(0xcbf29ce484222325u64 ^ 0x43u64 == 0xcbf29ce484222366u64) by (bit_vector);
    one_more(bytes, 0, 0xcbf29ce484222325, 0xcbf29ce484222366, 0xaf63fe4c86022652);
    assert(0xaf63fe4c86022652u64 ^ 0x4fu64 == 0xaf63fe4c8602261du64) by (bit_vector);
    one_more(bytes, 1, 0xaf63fe4c86022652, 0xaf63fe4c8602261d, 0x090f3907b5a6c347);
    assert(0x090f3907b5a6c347u64 ^ 0x4eu64 == 0x090f3907b5a6c309u64) by (bit_vector);
    one_more(bytes, 2, 0x090f3907b5a6c347, 0x090f3907b5a6c309, 0x0ba0f119aa5d684b);
    assert(0x0ba0f119aa5d684bu64 ^ 0x4eu64 == 0x0ba0f119aa5d6805u64) by (bit_vector);
    one_more(bytes, 3, 0x0ba0f119aa5d684b, 0x0ba0f119aa5d6805, 0x1fe1b39c7cb7c07f);
    assert(0x1fe1b39c7cb7c07fu64 ^ 0x45u64 == 0x1fe1b39c7cb7c03au64) by (bit_vector);
    one_more(bytes, 4, 0x1fe1b39c7cb7c07f, 0x1fe1b39c7cb7c03a, 0xe4446ce7ec3ba28e);
    assert(0xe4446ce7ec3ba28eu64 ^ 0x43u64 == 0xe4446ce7ec3ba2cdu64) by (bit_vector);
    one_more(bytes, 5, 0xe4446ce7ec3ba28e, 0xe4446ce7ec3ba2cd, 0x1be7db166955a257);
    assert(0x1be7db166955a257u64 ^ 0x54u64 == 0x1be7db166955a203u64) by (bit_vector);
    one_more(bytes, 6, 0x1be7db166955a257, 0x1be7db166955a203, 0xc09b4a14fc824b19);
    assert(bytes.take(7) =~= bytes);
}

proof fn slot_of_trace()
    ensures
        label_slot("TRACE"@) == 0x8993c501d2ecea4e,
{
    reveal_strlit("TRACE");
    is_ascii_chars_encode_utf8("TRACE"@);
    let bytes = encode_utf8("TRACE"@);
    assert(0xcbf29ce484222325u64 ^ 0x54u64 == 0xcbf29ce484222371u64) by (bit_vector);
    one_more(bytes, 0, 0xcbf29ce484222325, 0xcbf29ce484222371, 0xaf64094c86023903);
    assert(0xaf64094c86023903u64 ^ 0x52u64 == 0xaf64094c86023951u64) by (bit_vector);
    one_more(bytes, 1, 0xaf64094c86023903, 0xaf64094c86023951, 0x09351e07b5c764a3);
    assert(0x09351e07b5c764a3u64 ^ 0x41u64 == 0x09351e07b5c764e2u64) by (bit_vector);
    one_more(bytes, 2, 0x09351e07b5c764a3, 0x09351e07b5c764e2, 0x6ca6e919e1d06c06);
    assert(0x6ca6e919e1d06c06u64 ^ 0x43u64 == 0x6ca6e919e1d06c45u64) by (bit_vector);
    one_more(bytes, 3, 0x6ca6e919e1d06c06, 0x6ca6e919e1d06c45, 0x700a5bfab527f93f);
    assert(0x700a5bfab527f93fu64 ^ 0x45u64 == 0x700a5bfab527f97au64) by (bit_vector);
    one_more(bytes, 4, 0x700a5bfab527f93f, 0x700a5bfab527f97a, 0x8993c501d2ecea4e);
    assert(bytes.take(5) =~= bytes);
}

/// The slots of the standard HTTP methods, worked out by the hash as the
/// metrics crate computes it. No two of them are the same, so no two of
/// these methods share a series.
pub proof fn standard_methods_have_their_own_slots()
    ensures
        label_slot("GET"@) == 0xea7e631998067e17,
        label_slot("POST"@) == 0xa048aa190bf19f87,
        label_slot("PUT"@) == 0x8d8fb019f3f63ece,
        label_slot("DELETE"@) == 0x5cd15819e278608a,
        label_slot("PATCH"@) == 0xbebf4d0191bc5a49,
        label_slot("HEAD"@) == 0x4b9253d8ff1ee183,
        label_slot("OPTIONS"@) == 0x87cc05b46a17cf65,
        label_slot("CONNECT"@) == 0xc09b4a14fc824b19,
        label_slot("TRACE"@) == 0x8993c501d2ecea4e,
{
    slot_of_get();
    slot_of_post();
    slot_of_put();
    slot_of_delete();
    slot_of_patch();
    slot_of_head();
    slot_of_options();
    slot_of_connect();
    slot_of_trace();
}

/// Counting a request of one standard method leaves the count of every other
/// standard method as it is.
pub proof fn counting_leaves_other_methods_alone(
    counts: Map<u64, i64>,
    method: Seq<char>,
    other: Seq<char>,
)
    requires
        is_standard_method(method),
        is_standard_method(other),
        method != other,
    ensures
        counted(counts, method)[label_slot(other)] == counts[label_slot(other)],
{
    standard_methods_have_their_own_slots();
}

/// Recording a request of one standard method leaves the number of samples
/// of every other standard method as it is.
pub proof fn sampling_leaves_other_methods_alone(
    counts: Map<u64, u64>,
    method: Seq<char>,
    other: Seq<char>,
)
    requires
        is_standard_method(method),
        is_standard_method(other),
        method != other,
    ensures
        sampled(counts, method)[label_slot(other)] == counts[label_slot(other)],
{
    standard_methods_have_their_own_slots();
}

} // verus!
