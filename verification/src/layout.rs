//! The layout of the trust store: fixed file names under a home directory.

use vstd::prelude::*;
use vstd::string::{StrSliceExecFns, StringExecFns};

verus! {

/// `name` under the directory `dir`: the two joined by one separator, which
/// is left out where `dir` is empty or already ends in one.
pub open spec fn spec_join(dir: Seq<char>, name: Seq<char>) -> Seq<char> {
    if dir.len() == 0 {
        name
    } else if dir.last() == '/' {
        dir + name
    } else {
        dir + seq!['/'] + name
    }
}

/// The path of the private key that belongs to the base path `base`.
pub open spec fn spec_private_path(base: Seq<char>) -> Seq<char> {
    base + ".pem"@
}

/// The path of the public key that belongs to the base path `base`.
pub open spec fn spec_public_path(base: Seq<char>) -> Seq<char> {
    base + ".pub"@
}

/// The base name of the key pair that authenticates administrators.
pub open spec fn spec_auth_key_name() -> Seq<char> {
    "auth_key"@
}

/// The base name of the key pair that serves TLS.
pub open spec fn spec_tls_key_name() -> Seq<char> {
    "https_key"@
}

/// The file name of the TLS certificate.
pub open spec fn spec_certificate_name() -> Seq<char> {
    "https_cert.pem"@
}

/// The file name of the policy that allows every request.
pub open spec fn spec_allow_all_name() -> Seq<char> {
    "allow_all.rego"@
}

/// The file name of the policy that denies every request.
pub open spec fn spec_deny_all_name() -> Seq<char> {
    "deny_all.rego"@
}

/// The base name of a key pair generated on request.
pub open spec fn spec_generated_key_name() -> Seq<char> {
    "key"@
}

/// The home directory of a service that runs as the superuser.
pub open spec fn spec_system_home() -> Seq<char> {
    "/opt/confidential-containers"@
}

/// The name of the home directory under a user's own directory.
pub open spec fn spec_user_home_name() -> Seq<char> {
    ".trustee"@
}

/// The home directory of the trust store: the one stated, else the system
/// home for the superuser, else the fixed name under the user's own
/// directory, taken as empty where the user has none.
pub open spec fn spec_resolve_home(
    stated: Option<Seq<char>>,
    superuser: bool,
    user_dir: Option<Seq<char>>,
) -> Seq<char> {
    match stated {
        Some(home) => home,
        None => if superuser {
            spec_system_home()
        } else {
            match user_dir {
                Some(dir) => spec_join(dir, spec_user_home_name()),
                None => spec_user_home_name(),
            }
        },
    }
}

/// Joins a directory and a name into a path.
pub fn join(dir: &str, name: &str) -> (path: String)
    ensures
        path@ == spec_join(dir@, name@),
{
    let len = dir.unicode_len();
    if len == 0 {
        name.to_owned()
    } else if dir.get_char(len - 1) == '/' {
        dir.to_owned().concat(name)
    } else {
        proof {
            reveal_strlit("/");
            assert("/"@ =~= seq!['/']);
        }
        dir.to_owned().concat("/").concat(name)
    }
}

/// The paths of the private and the public key that belong to a base path:
/// the base path with the extension `.pem`, and with the extension `.pub`.
pub fn key_pair_paths(base: &str) -> (paths: (String, String))
    ensures
        paths.0@ == spec_private_path(base@),
        paths.1@ == spec_public_path(base@),
{
    (base.to_owned().concat(".pem"), base.to_owned().concat(".pub"))
}

/// The paths of the private and the public key named `key_name` under
/// `base_dir`.
pub fn get_key_paths(base_dir: &str, key_name: &str) -> (paths: (String, String))
    ensures
        paths.0@ == spec_private_path(spec_join(base_dir@, key_name@)),
        paths.1@ == spec_public_path(spec_join(base_dir@, key_name@)),
{
    let base = join(base_dir, key_name);
    key_pair_paths(base.as_str())
}

/// Resolves the home directory of the trust store from what the caller
/// found out: the directory stated on the command line or in the
/// environment, whether the process runs as the superuser, and the user's
/// own directory.
pub fn resolve_home(stated: Option<String>, superuser: bool, user_dir: Option<String>) -> (home:
    String)
    ensures
        home@ == spec_resolve_home(
            match stated {
                Some(s) => Some(s@),
                None => None,
            },
            superuser,
            match user_dir {
                Some(d) => Some(d@),
                None => None,
            },
        ),
{
    match stated {
        Some(home) => home,
        None => if superuser {
            String::from_str("/opt/confidential-containers")
        } else {
            match user_dir {
                Some(dir) => join(dir.as_str(), ".trustee"),
                None => String::from_str(".trustee"),
            }
        },
    }
}

/// The base path of the key pair that is generated on request where no
/// output is stated.
pub fn generated_key_base(home: &str) -> (base: String)
    ensures
        base@ == spec_join(home@, spec_generated_key_name()),
{
    join(home, "key")
}

/// The private key of the administrators' pair is `auth_key.pem`, its public
/// key `auth_key.pub`; those of the TLS pair are `https_key.pem` and
/// `https_key.pub`.
pub proof fn lemma_file_names()
    ensures
        spec_private_path(spec_auth_key_name()) == "auth_key.pem"@,
        spec_public_path(spec_auth_key_name()) == "auth_key.pub"@,
        spec_private_path(spec_tls_key_name()) == "https_key.pem"@,
        spec_public_path(spec_tls_key_name()) == "https_key.pub"@,
{
    reveal_strlit(".pem");
    reveal_strlit(".pub");
    reveal_strlit("auth_key");
    reveal_strlit("https_key");
    reveal_strlit("auth_key.pem");
    reveal_strlit("auth_key.pub");
    reveal_strlit("https_key.pem");
    reveal_strlit("https_key.pub");
    assert(spec_private_path(spec_auth_key_name()) =~= "auth_key.pem"@);
    assert(spec_public_path(spec_auth_key_name()) =~= "auth_key.pub"@);
    assert(spec_private_path(spec_tls_key_name()) =~= "https_key.pem"@);
    assert(spec_public_path(spec_tls_key_name()) =~= "https_key.pub"@);
}

/// The private and the public path of one base path differ, and neither is
/// the base path.
pub proof fn lemma_pair_paths_differ(base: Seq<char>)
    ensures
        spec_private_path(base) != spec_public_path(base),
        spec_private_path(base) != base,
        spec_public_path(base) != base,
{
    reveal_strlit(".pem");
    reveal_strlit(".pub");
    let private = spec_private_path(base);
    let public = spec_public_path(base);
    assert(private.len() == base.len() + 4);
    assert(public.len() == base.len() + 4);
    assert(private[base.len() as int + 2] == 'e');
    assert(public[base.len() as int + 2] == 'u');
}

/// A joined path is as much longer than its name as any other path under the
/// same directory, and ends as its name ends.
pub proof fn lemma_join_shape(dir: Seq<char>, name: Seq<char>)
    ensures
        spec_join(dir, name).len() == spec_join(dir, Seq::empty()).len() + name.len(),
        name.len() > 0 ==> spec_join(dir, name).last() == name.last(),
{
}

/// The names in the trust store are seven different names: no two of the
/// five keys and certificates and the two policy files under one home
/// directory share a path.
pub proof fn lemma_names_differ(home: Seq<char>)
    ensures
        ({
            let auth = spec_join(home, spec_auth_key_name());
            let tls = spec_join(home, spec_tls_key_name());
            let certificate = spec_join(home, spec_certificate_name());
            let allow = spec_join(home, spec_allow_all_name());
            let deny = spec_join(home, spec_deny_all_name());
            &&& spec_private_path(auth) != spec_public_path(auth)
            &&& spec_private_path(auth) != spec_private_path(tls)
            &&& spec_private_path(auth) != spec_public_path(tls)
            &&& spec_private_path(auth) != certificate
            &&& spec_private_path(auth) != allow
            &&& spec_private_path(auth) != deny
            &&& spec_public_path(auth) != spec_private_path(tls)
            &&& spec_public_path(auth) != spec_public_path(tls)
            &&& spec_public_path(auth) != certificate
            &&& spec_public_path(auth) != allow
            &&& spec_public_path(auth) != deny
            &&& spec_private_path(tls) != spec_public_path(tls)
            &&& spec_private_path(tls) != certificate
            &&& spec_private_path(tls) != allow
            &&& spec_private_path(tls) != deny
            &&& spec_public_path(tls) != certificate
            &&& spec_public_path(tls) != allow
            &&& spec_public_path(tls) != deny
            &&& certificate != allow
            &&& certificate != deny
            &&& allow != deny
        }),
{
    reveal_strlit(".pem");
    reveal_strlit(".pub");
    reveal_strlit("auth_key");
    reveal_strlit("https_key");
    reveal_strlit("https_cert.pem");
    reveal_strlit("allow_all.rego");
    reveal_strlit("deny_all.rego");
    let auth = spec_join(home, spec_auth_key_name());
    let tls = spec_join(home, spec_tls_key_name());
    let certificate = spec_join(home, spec_certificate_name());
    let allow = spec_join(home, spec_allow_all_name());
    let deny = spec_join(home, spec_deny_all_name());
    lemma_join_shape(home, spec_auth_key_name());
    lemma_join_shape(home, spec_tls_key_name());
    lemma_join_shape(home, spec_certificate_name());
    lemma_join_shape(home, spec_allow_all_name());
    lemma_join_shape(home, spec_deny_all_name());
    lemma_pair_paths_differ(auth);
    lemma_pair_paths_differ(tls);
    assert(spec_private_path(tls).last() == 'm');
    assert(spec_public_path(tls).last() == 'b');
    assert(certificate.last() == 'm');
    assert(allow.last() == 'o');
    assert(deny.last() == 'o');
}

} // verus!
