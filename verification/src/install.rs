//! Privilege-mechanism selection and install-time text.
//!
//! The daemon suspends the host through a privileged command prefix that
//! is chosen by the presence of the doas configuration file — a pure
//! function of host state, re-evaluated at each call.  Install time needs
//! fixed file contents: a service unit, an init script, and the privilege
//! rules that let the daemon's group run its two tools.  The surrounding
//! binary probes the host and reads or writes the files; everything that
//! decides or builds text is here.

use vstd::prelude::*;

verus! {

/// The privilege-elevation prefix for the host: doas when its
/// configuration file is present, sudo otherwise.
pub fn elevation_command(doas_conf_present: bool) -> (r: &'static str)
    ensures
        doas_conf_present ==> r@ == "doas"@,
        !doas_conf_present ==> r@ == "sudo"@,
{
    if doas_conf_present {
        "doas"
    } else {
        "sudo"
    }
}

/// The systemd unit that keeps the daemon running, for the given binary
/// path.
pub fn systemd_unit(binary_path: &str) -> (r: String)
    ensures
        r@ == "[Unit]\nDescription=Portal Daemon (Network Sleep Manager)\nAfter=network.target\n\n[Service]\nExecStart="@
            + binary_path@
            + "\nRestart=always\nUser=root\nGroup=root\n\n[Install]\nWantedBy=multi-user.target\n"@,
{
    let mut s = String::from_str(
        "[Unit]\nDescription=Portal Daemon (Network Sleep Manager)\nAfter=network.target\n\n[Service]\nExecStart=",
    );
    s.append(binary_path);
    s.append("\nRestart=always\nUser=root\nGroup=root\n\n[Install]\nWantedBy=multi-user.target\n");
    s
}

/// The OpenRC init script for the daemon, for the given binary path.
pub fn openrc_script(binary_path: &str) -> (r: String)
    ensures
        r@ == "#!/sbin/openrc-run\n\nname=\"portal\"\ndescription=\"Portal Daemon\"\ncommand=\""@
            + binary_path@
            + "\"\ncommand_background=true\npidfile=\"/run/portal.pid\"\n\ndepend() {\n    need net\n}\n"@,
{
    let mut s = String::from_str(
        "#!/sbin/openrc-run\n\nname=\"portal\"\ndescription=\"Portal Daemon\"\ncommand=\"",
    );
    s.append(binary_path);
    s.append("\"\ncommand_background=true\npidfile=\"/run/portal.pid\"\n\ndepend() {\n    need net\n}\n");
    s
}

/// The sudoers line that lets members of `group` run the two tools
/// without a password.
pub fn sudoers_rule(group: &str, rtcwake_path: &str, nmcli_path: &str) -> (r: String)
    ensures
        r@ == "%"@ + group@ + " ALL=(root) NOPASSWD: "@ + rtcwake_path@ + ", "@ + nmcli_path@
            + "\n"@,
{
    let mut s = String::from_str("%");
    s.append(group);
    s.append(" ALL=(root) NOPASSWD: ");
    s.append(rtcwake_path);
    s.append(", ");
    s.append(nmcli_path);
    s.append("\n");
    s
}

/// The doas rule that lets members of `group` run `command_path` without
/// a password.
pub fn doas_rule(group: &str, command_path: &str) -> (r: String)
    ensures
        r@ == "permit nopass :"@ + group@ + " cmd "@ + command_path@,
{
    let mut s = String::from_str("permit nopass :");
    s.append(group);
    s.append(" cmd ");
    s.append(command_path);
    s
}

/// `needle` occurs in `hay` starting at position `i`.
pub open spec fn match_at(hay: Seq<u8>, needle: Seq<u8>, i: int) -> bool {
    0 <= i && i + needle.len() <= hay.len() && hay.subrange(i, i + needle.len()) == needle
}

/// `needle` occurs contiguously somewhere in `hay`.
pub open spec fn contains_seq(hay: Seq<u8>, needle: Seq<u8>) -> bool {
    exists|i: int| #[trigger] match_at(hay, needle, i)
}

/// Substring search: whether `needle` occurs contiguously in `hay`.
pub fn contains_subslice(hay: &[u8], needle: &[u8]) -> (r: bool)
    ensures
        r == contains_seq(hay@, needle@),
{
    let n = needle.len();
    let h = hay.len();
    if n > h {
        proof {
            assert(forall|j: int| !match_at(hay@, needle@, j));
        }
        return false;
    }
    if n == 0 {
        proof {
            assert(hay@.subrange(0, 0 + needle@.len() as int) =~= needle@);
            assert(match_at(hay@, needle@, 0));
        }
        return true;
    }
    let limit = h - n;
    let mut i: usize = 0;
    while i <= limit
        invariant
            n == needle@.len(),
            h == hay@.len(),
            1 <= n <= h,
            limit == h - n,
            i <= limit + 1,
            forall|j: int| 0 <= j < i ==> !#[trigger] match_at(hay@, needle@, j),
        decreases limit + 1 - i,
    {
        let mut k: usize = 0;
        let mut mismatch = false;
        while k < n
            invariant
                n == needle@.len(),
                h == hay@.len(),
                i + n <= h,
                k <= n,
                !mismatch ==> forall|m: int| 0 <= m < k ==> hay@[i + m] == #[trigger] needle@[m],
                mismatch ==> !match_at(hay@, needle@, i as int),
            decreases n - k,
        {
            if hay[i + k] != needle[k] {
                proof {
                    assert(hay@.subrange(i as int, i + needle@.len() as int)[k as int] == hay@[
                        i + k
                    ]);
                    assert(!match_at(hay@, needle@, i as int));
                }
                mismatch = true;
                k = n;
            } else {
                k += 1;
            }
        }
        if !mismatch {
            proof {
                assert(hay@.subrange(i as int, i + needle@.len() as int) =~= needle@);
                assert(match_at(hay@, needle@, i as int));
            }
            return true;
        }
        i += 1;
    }
    proof {
        assert(forall|j: int| !match_at(hay@, needle@, j));
    }
    false
}

/// Appends all of `s` to `v`.
pub fn push_all(v: &mut Vec<u8>, s: &[u8])
    ensures
        final(v)@ == old(v)@ + s@,
{
    let mut k: usize = 0;
    while k < s.len()
        invariant
            k <= s@.len(),
            v@ == old(v)@ + s@.take(k as int),
        decreases s@.len() - k,
    {
        v.push(s[k]);
        proof {
            assert(old(v)@ + s@.take(k as int) + seq![s@[k as int]] =~= old(v)@ + s@.take(
                k as int + 1,
            ));
        }
        k += 1;
    }
    proof {
        assert(s@.take(s@.len() as int) =~= s@);
    }
}

/// The doas configuration after installing the two daemon rules: each
/// rule that the existing content does not already contain is appended on
/// a line of its own — the first with a separating blank before it, as a
/// fresh block — and content that already holds a rule is left as it is.
pub fn doas_config_with_rules(existing: &[u8], rule1: &[u8], rule2: &[u8]) -> (r: Vec<u8>)
    ensures
        ({
            let c1 = if contains_seq(existing@, rule1@) {
                existing@
            } else {
                existing@ + seq![10u8] + rule1@ + seq![10u8]
            };
            let c2 = if contains_seq(c1, rule2@) {
                c1
            } else {
                c1 + rule2@ + seq![10u8]
            };
            r@ == c2
        }),
{
    let mut out: Vec<u8> = Vec::new();
    push_all(&mut out, existing);
    proof {
        assert(out@ =~= existing@);
    }
    if !contains_subslice(existing, rule1) {
        out.push(10);
        push_all(&mut out, rule1);
        out.push(10);
        proof {
            assert(out@ =~= existing@ + seq![10u8] + rule1@ + seq![10u8]);
        }
    }
    if !contains_subslice(out.as_slice(), rule2) {
        push_all(&mut out, rule2);
        out.push(10);
    }
    out
}

} // verus!
