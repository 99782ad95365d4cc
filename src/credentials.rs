use vstd::prelude::*;

verus! {

/// The network a station joins: name, secret, and whether the network
/// hides its name. Fixed at boot and read-only afterwards.
pub struct StationCredentials {
    pub ssid: String,
    pub password: String,
    pub is_hidden: bool,
}

/// The textual form of an enabled flag in the build configuration.
pub open spec fn flag_enabled(text: Seq<char>) -> bool {
    text == "true"@
}

/// True exactly when `text` reads `true`.
pub fn parse_flag(text: &str) -> (r: bool)
    ensures
        r == flag_enabled(text@),
{
    let expected = "true";
    proof {
        reveal_strlit("true");
    }
    let n = text.unicode_len();
    if n != expected.unicode_len() {
        return false;
    }
    let mut i: usize = 0;
    while i < n
        invariant
            n == text@.len(),
            n == expected@.len(),
            expected@ == "true"@,
            i <= n,
            forall|j: int| 0 <= j < i ==> text@[j] == expected@[j],
        decreases n - i,
    {
        if text.get_char(i) != expected.get_char(i) {
            assert(text@[i as int] != expected@[i as int]);
            return false;
        }
        i = i + 1;
    }
    assert(text@ =~= expected@);
    true
}

impl StationCredentials {
    /// Builds the credentials from the three configuration values; the
    /// hidden flag is set exactly when its text is `true`.
    pub fn from_config(ssid: &str, password: &str, hidden_flag: &str) -> (r: StationCredentials)
        ensures
            r.ssid@ == ssid@,
            r.password@ == password@,
            r.is_hidden == flag_enabled(hidden_flag@),
    {
        StationCredentials {
            ssid: ssid.to_string(),
            password: password.to_string(),
            is_hidden: parse_flag(hidden_flag),
        }
    }
}

} // verus!
