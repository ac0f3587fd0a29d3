use vstd::prelude::*;
use vstd::string::StrSliceExecFns;
use vstd::string::StringExecFns;
use crate::domain::data_stores::{
    two_fa_code_ok, uuid_parse, LoginAttemptId, TwoFACode, TwoFACodeStoreError,
};
use crate::domain::email::Email;

verus! {

/// How long a stored challenge stays live: records expire no later than
/// ten minutes after they are written, which then counts as removal.
pub const TEN_MINUTES_IN_SECONDS: u64 = 600;

/// The storage key under which the live challenge of `email` is
/// recorded.
pub fn get_key(email: &Email) -> (r: String)
    ensures
        r@ == "two_fa_code:"@ + email@,
{
    String::from_str("two_fa_code:").concat(email.as_ref())
}

/// The outcome of removing a challenge on a TTL-keyed backend, from the
/// count of records its delete-by-key reported: none found means no live
/// challenge, exactly one is the removal, and any other count says the
/// backend misbehaved.
pub fn removal_outcome(deleted: usize) -> (r: Result<(), TwoFACodeStoreError>)
    ensures
        deleted == 0 ==> r == Err::<(), TwoFACodeStoreError>(
            TwoFACodeStoreError::LoginAttemptIdNotFound,
        ),
        deleted == 1 ==> r == Ok::<(), TwoFACodeStoreError>(()),
        deleted > 1 ==> r == Err::<(), TwoFACodeStoreError>(TwoFACodeStoreError::UnexpectedError),
{
    if deleted == 0 {
        Err(TwoFACodeStoreError::LoginAttemptIdNotFound)
    } else if deleted == 1 {
        Ok(())
    } else {
        Err(TwoFACodeStoreError::UnexpectedError)
    }
}

pub open spec fn quote_free(s: Seq<char>) -> bool {
    forall|i: int| 0 <= i < s.len() ==> s[i] != '"'
}

/// The stored rendering of a challenge: a two-element array of strings,
/// holding the attempt id and the code.
pub open spec fn record_string(login_attempt_id: Seq<char>, code: Seq<char>) -> Seq<char> {
    "[\""@ + login_attempt_id + "\",\""@ + code + "\"]"@
}

/// The character the record carries at position `k`.
pub open spec fn record_char(id: Seq<char>, code: Seq<char>, k: int) -> char {
    let a = id.len() as int;
    let b = code.len() as int;
    if k == 0 {
        '['
    } else if k == 1 {
        '"'
    } else if k < 2 + a {
        id[k - 2]
    } else if k == 2 + a {
        '"'
    } else if k == 3 + a {
        ','
    } else if k == 4 + a {
        '"'
    } else if k < 5 + a + b {
        code[k - 5 - a]
    } else if k == 5 + a + b {
        '"'
    } else {
        ']'
    }
}

proof fn lemma_record_chars(id: Seq<char>, code: Seq<char>)
    ensures
        record_string(id, code).len() == id.len() + code.len() + 7,
        forall|k: int|
            0 <= k < record_string(id, code).len() ==> #[trigger] record_string(id, code)[k]
                == record_char(id, code, k),
{
    reveal_strlit("[\"");
    reveal_strlit("\",\"");
    reveal_strlit("\"]");
    assert("[\""@.len() == 2);
    assert("\",\""@.len() == 3);
    assert("\"]"@.len() == 2);
    assert("[\""@[0] == '[' && "[\""@[1] == '"');
    assert("\",\""@[0] == '"' && "\",\""@[1] == ',' && "\",\""@[2] == '"');
    assert("\"]"@[0] == '"' && "\"]"@[1] == ']');
}

/// Two records over quote-free payloads agree only when the payloads
/// do: the rendering loses nothing.
pub proof fn lemma_record_string_injective(
    id1: Seq<char>,
    code1: Seq<char>,
    id2: Seq<char>,
    code2: Seq<char>,
)
    requires
        quote_free(id1),
        quote_free(id2),
        record_string(id1, code1) == record_string(id2, code2),
    ensures
        id1 == id2,
        code1 == code2,
{
    lemma_record_chars(id1, code1);
    lemma_record_chars(id2, code2);
    let r = record_string(id1, code1);
    let a1 = id1.len() as int;
    let a2 = id2.len() as int;
    if a1 < a2 {
        assert(r[2 + a1] == record_char(id1, code1, 2 + a1));
        assert(record_string(id2, code2)[2 + a1] == record_char(id2, code2, 2 + a1));
        assert(false);
    }
    if a2 < a1 {
        assert(r[2 + a2] == record_char(id1, code1, 2 + a2));
        assert(record_string(id2, code2)[2 + a2] == record_char(id2, code2, 2 + a2));
        assert(false);
    }
    assert(id1 =~= id2) by {
        assert forall|i: int| 0 <= i < id1.len() implies id1[i] == id2[i] by {
            assert(r[2 + i] == record_char(id1, code1, 2 + i));
            assert(record_string(id2, code2)[2 + i] == record_char(id2, code2, 2 + i));
        }
    }
    assert(code1 =~= code2) by {
        assert(code1.len() == code2.len());
        assert forall|j: int| 0 <= j < code1.len() implies code1[j] == code2[j] by {
            assert(r[5 + a1 + j] == record_char(id1, code1, 5 + a1 + j));
            assert(record_string(id2, code2)[5 + a1 + j] == record_char(id2, code2, 5 + a1 + j));
        }
    }
}

/// Writes the challenge in the stored rendering. The payloads carry no
/// quote — the id is a canonical identifier, the code all digits — so
/// the rendering is unambiguous.
pub fn encode_record(login_attempt_id: &LoginAttemptId, code: &TwoFACode) -> (r: String)
    ensures
        r@ == record_string(login_attempt_id@, code@),
{
    let mut s = String::from_str("[\"");
    s.append(login_attempt_id.as_ref());
    s.append("\",\"");
    s.append(code.as_ref());
    s.append("\"]");
    s
}

/// The first position at or after `from` holding a quote.
fn find_quote(s: &str, from: usize) -> (r: Option<usize>)
    requires
        from <= s@.len(),
    ensures
        match r {
            Some(j) => from <= j < s@.len() && s@[j as int] == '"' && (forall|i: int|
                from <= i < j ==> s@[i] != '"'),
            None => forall|i: int| from <= i < s@.len() ==> s@[i] != '"',
        },
{
    let n = s.unicode_len();
    let mut i = from;
    while i < n
        invariant
            from <= i <= n,
            n == s@.len(),
            forall|k: int| from <= k < i ==> s@[k] != '"',
        decreases n - i,
    {
        if s.get_char(i) == '"' {
            return Some(i);
        }
        i = i + 1;
    }
    None
}

/// Reads a stored rendering back. `Some` exactly when `s` is the record
/// of some quote-free pair, and then of that pair.
pub fn decode_record(s: &str) -> (r: Option<(String, String)>)
    ensures
        match r {
            Some(p) => s@ == record_string(p.0@, p.1@) && quote_free(p.0@) && quote_free(p.1@),
            None => forall|id: Seq<char>, code: Seq<char>|
                quote_free(id) && quote_free(code) ==> s@ != #[trigger] record_string(id, code),
        },
{
    let n = s.unicode_len();
    if n < 7 {
        proof {
            assert forall|id: Seq<char>, code: Seq<char>|
                quote_free(id) && quote_free(code) implies s@ != #[trigger] record_string(
                id,
                code,
            ) by {
                lemma_record_chars(id, code);
            }
        }
        return None;
    }
    if !(s.get_char(0) == '[' && s.get_char(1) == '"') {
        proof {
            assert forall|id: Seq<char>, code: Seq<char>|
                quote_free(id) && quote_free(code) implies s@ != #[trigger] record_string(
                id,
                code,
            ) by {
                lemma_record_chars(id, code);
                if s@ == record_string(id, code) {
                    assert(s@[0] == record_char(id, code, 0));
                    assert(s@[1] == record_char(id, code, 1));
                }
            }
        }
        return None;
    }
    let j1_opt = find_quote(s, 2);
    let j1 = match j1_opt {
        Some(j) => j,
        None => {
            proof {
                assert forall|id: Seq<char>, code: Seq<char>|
                    quote_free(id) && quote_free(code) implies s@ != #[trigger] record_string(
                    id,
                    code,
                ) by {
                    lemma_record_chars(id, code);
                    if s@ == record_string(id, code) {
                        let a = id.len() as int;
                        assert(s@[2 + a] == record_char(id, code, 2 + a));
                    }
                }
            }
            return None;
        },
    };
    if j1 >= n - 2 {
        proof {
            assert forall|id: Seq<char>, code: Seq<char>|
                quote_free(id) && quote_free(code) implies s@ != #[trigger] record_string(
                id,
                code,
            ) by {
                lemma_record_chars(id, code);
                if s@ == record_string(id, code) {
                    let a = id.len() as int;
                    if j1 < 2 + a {
                        assert(s@[j1 as int] == record_char(id, code, j1 as int));
                    } else if j1 > 2 + a {
                        assert(s@[2 + a] == record_char(id, code, 2 + a));
                    }
                    assert(j1 == 2 + a);
                }
            }
        }
        return None;
    }
    if !(s.get_char(j1 + 1) == ',' && s.get_char(j1 + 2) == '"') {
        proof {
            assert forall|id: Seq<char>, code: Seq<char>|
                quote_free(id) && quote_free(code) implies s@ != #[trigger] record_string(
                id,
                code,
            ) by {
                lemma_record_chars(id, code);
                if s@ == record_string(id, code) {
                    let a = id.len() as int;
                    if j1 < 2 + a {
                        assert(s@[j1 as int] == record_char(id, code, j1 as int));
                    } else if j1 > 2 + a {
                        assert(s@[2 + a] == record_char(id, code, 2 + a));
                    }
                    assert(j1 == 2 + a);
                    assert(s@[j1 + 1] == record_char(id, code, 3 + a));
                    assert(s@[j1 + 2] == record_char(id, code, 4 + a));
                }
            }
        }
        return None;
    }
    let j2_opt = find_quote(s, j1 + 3);
    let j2 = match j2_opt {
        Some(j) => j,
        None => {
            proof {
                assert forall|id: Seq<char>, code: Seq<char>|
                    quote_free(id) && quote_free(code) implies s@ != #[trigger] record_string(
                    id,
                    code,
                ) by {
                    lemma_record_chars(id, code);
                    if s@ == record_string(id, code) {
                        let a = id.len() as int;
                        let b = code.len() as int;
                        if j1 < 2 + a {
                            assert(s@[j1 as int] == record_char(id, code, j1 as int));
                        } else if j1 > 2 + a {
                            assert(s@[2 + a] == record_char(id, code, 2 + a));
                        }
                        assert(j1 == 2 + a);
                        assert(s@[5 + a + b] == record_char(id, code, 5 + a + b));
                    }
                }
            }
            return None;
        },
    };
    if !(j2 == n - 2) {
        proof {
            assert forall|id: Seq<char>, code: Seq<char>|
                quote_free(id) && quote_free(code) implies s@ != #[trigger] record_string(
                id,
                code,
            ) by {
                lemma_record_chars(id, code);
                if s@ == record_string(id, code) {
                    let a = id.len() as int;
                    let b = code.len() as int;
                    if j1 < 2 + a {
                        assert(s@[j1 as int] == record_char(id, code, j1 as int));
                    } else if j1 > 2 + a {
                        assert(s@[2 + a] == record_char(id, code, 2 + a));
                    }
                    assert(j1 == 2 + a);
                    if j2 < 5 + a + b {
                        assert(s@[j2 as int] == record_char(id, code, j2 as int));
                    } else if j2 > 5 + a + b {
                        assert(s@[5 + a + b] == record_char(id, code, 5 + a + b));
                    }
                    assert(j2 == 5 + a + b);
                }
            }
        }
        return None;
    }
    if !(s.get_char(n - 1) == ']') {
        proof {
            assert forall|id: Seq<char>, code: Seq<char>|
                quote_free(id) && quote_free(code) implies s@ != #[trigger] record_string(
                id,
                code,
            ) by {
                lemma_record_chars(id, code);
                if s@ == record_string(id, code) {
                    assert(s@[s@.len() - 1] == record_char(id, code, s@.len() - 1));
                }
            }
        }
        return None;
    }
    let id_part = s.substring_char(2, j1);
    let code_part = s.substring_char(j1 + 3, j2);
    proof {
        let id = id_part@;
        let code = code_part@;
        lemma_record_chars(id, code);
        assert forall|k: int| 0 <= k < s@.len() implies s@[k] == record_string(id, code)[k] by {
            assert(record_string(id, code)[k] == record_char(id, code, k));
        }
        assert(s@ =~= record_string(id, code));
    }
    Some((String::from_str(id_part), String::from_str(code_part)))
}

/// Reads a stored rendering back into value types: the record of the
/// challenge as issued, its id in canonical form, its code six digits.
pub fn parse_stored_challenge(s: &str) -> (r: Option<(LoginAttemptId, TwoFACode)>)
    ensures
        match r {
            Some(p) => exists|raw_id: Seq<char>|
                #[trigger] quote_free(raw_id) && s@ == record_string(raw_id, p.1@) && uuid_parse(
                    raw_id,
                ) == Some(p.0@) && two_fa_code_ok(p.1@),
            None => forall|raw_id: Seq<char>, code: Seq<char>|
                quote_free(raw_id) && uuid_parse(raw_id) is Some && two_fa_code_ok(code) ==> s@
                    != #[trigger] record_string(raw_id, code),
        },
{
    let decoded = match decode_record(s) {
        Some(p) => p,
        None => {
            return None;
        },
    };
    let login_attempt_id = match LoginAttemptId::parse(decoded.0.as_str()) {
        Ok(v) => v,
        Err(_) => {
            proof {
                assert forall|raw_id: Seq<char>, code: Seq<char>|
                    quote_free(raw_id) && uuid_parse(raw_id) is Some && two_fa_code_ok(code)
                    implies s@ != #[trigger] record_string(raw_id, code) by {
                    if s@ == record_string(raw_id, code) {
                        lemma_code_quote_free(code);
                        lemma_record_string_injective(decoded.0@, decoded.1@, raw_id, code);
                    }
                }
            }
            return None;
        },
    };
    let code = match TwoFACode::parse(decoded.1.as_str()) {
        Ok(v) => v,
        Err(_) => {
            proof {
                assert forall|raw_id: Seq<char>, code: Seq<char>|
                    quote_free(raw_id) && uuid_parse(raw_id) is Some && two_fa_code_ok(code)
                    implies s@ != #[trigger] record_string(raw_id, code) by {
                    if s@ == record_string(raw_id, code) {
                        lemma_code_quote_free(code);
                        lemma_record_string_injective(decoded.0@, decoded.1@, raw_id, code);
                    }
                }
            }
            return None;
        },
    };
    proof {
        assert(quote_free(decoded.0@) && s@ == record_string(decoded.0@, code@) && uuid_parse(
            decoded.0@,
        ) == Some(login_attempt_id@) && two_fa_code_ok(code@));
        assert(exists|raw_id: Seq<char>|
            #[trigger] quote_free(raw_id) && s@ == record_string(raw_id, code@) && uuid_parse(
                raw_id,
            ) == Some(login_attempt_id@) && two_fa_code_ok(code@));
    }
    Some((login_attempt_id, code))
}

/// Six digits never hold a quote.
proof fn lemma_code_quote_free(code: Seq<char>)
    requires
        two_fa_code_ok(code),
    ensures
        quote_free(code),
{
    assert forall|i: int| 0 <= i < code.len() implies code[i] != '"' by {
        assert(crate::domain::data_stores::is_digit_char(code[i]));
    }
}

} // verus!
