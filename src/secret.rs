use vstd::prelude::*;

use crate::text::str_eq;

verus! {

/// The client-secret document: its one `web` entry.
#[derive(Debug, PartialEq, Eq, Hash)]
pub struct ClientSecret {
    pub web: WebClientSecret,
}

/// The provider's endpoints and this client's credentials.
#[derive(Debug, PartialEq, Eq, Hash)]
pub struct WebClientSecret {
    pub client_id: String,
    pub project_id: String,
    pub auth_uri: String,
    pub token_uri: String,
    pub auth_provider_x509_cert_url: String,
    pub client_secret: String,
}

impl Clone for WebClientSecret {
    fn clone(&self) -> (r: Self)
        ensures
            r == *self,
    {
        WebClientSecret {
            client_id: self.client_id.clone(),
            project_id: self.project_id.clone(),
            auth_uri: self.auth_uri.clone(),
            token_uri: self.token_uri.clone(),
            auth_provider_x509_cert_url: self.auth_provider_x509_cert_url.clone(),
            client_secret: self.client_secret.clone(),
        }
    }
}

impl Clone for ClientSecret {
    fn clone(&self) -> (r: Self)
        ensures
            r == *self,
    {
        ClientSecret { web: self.web.clone() }
    }
}

pub open spec fn opt_str_view(o: Option<&str>) -> Option<Seq<char>> {
    match o {
        Some(s) => Some(s@),
        None => None,
    }
}

/// The name of the variable that overrides `field`: `OVERRIDE_{FIELD}`, or
/// `OVERRIDE_{INFIX}_{FIELD}` with an infix.
pub open spec fn override_var_name(infix: Option<Seq<char>>, field: Seq<char>) -> Seq<char> {
    match infix {
        Some(i) => "OVERRIDE_"@ + i + "_"@ + field,
        None => "OVERRIDE_"@ + field,
    }
}

/// The value of the first entry named `key`, if any.
pub open spec fn env_lookup(env: Seq<(String, String)>, key: Seq<char>) -> Option<Seq<char>>
    decreases env.len(),
{
    if env.len() == 0 {
        None
    } else if env[0].0@ == key {
        Some(env[0].1@)
    } else {
        env_lookup(env.drop_first(), key)
    }
}

/// A field after the override rule: the variable's value if it is set and
/// not empty, else the field as it was.
pub open spec fn overridden(orig: Seq<char>, env: Seq<(String, String)>, key: Seq<char>) -> Seq<
    char,
> {
    match env_lookup(env, key) {
        Some(v) if v.len() > 0 => v,
        _ => orig,
    }
}

/// The secret after the override rule, field by field.
pub open spec fn overridden_secret(
    w: WebClientSecret,
    infix: Option<Seq<char>>,
    env: Seq<(String, String)>,
    r: WebClientSecret,
) -> bool {
    &&& r.client_id@ == overridden(
        w.client_id@,
        env,
        override_var_name(infix, "CLIENT_ID"@),
    )
    &&& r.project_id@ == overridden(
        w.project_id@,
        env,
        override_var_name(infix, "PROJECT_ID"@),
    )
    &&& r.auth_uri@ == overridden(w.auth_uri@, env, override_var_name(infix, "AUTH_URI"@))
    &&& r.token_uri@ == overridden(w.token_uri@, env, override_var_name(infix, "TOKEN_URI"@))
    &&& r.auth_provider_x509_cert_url@ == overridden(
        w.auth_provider_x509_cert_url@,
        env,
        override_var_name(infix, "AUTH_PROVIDER_X509_CERT_URL"@),
    )
    &&& r.client_secret@ == overridden(
        w.client_secret@,
        env,
        override_var_name(infix, "CLIENT_SECRET"@),
    )
}

/// The name of the variable that overrides `field`.
pub fn override_var(infix: Option<&str>, field: &str) -> (r: String)
    ensures
        r@ == override_var_name(opt_str_view(infix), field@),
{
    let mut r = String::new();
    r.append("OVERRIDE_");
    match infix {
        Some(i) => {
            r.append(i);
            r.append("_");
        },
        None => {},
    }
    r.append(field);
    proof {
        assert(Seq::<char>::empty() + "OVERRIDE_"@ =~= "OVERRIDE_"@);
    }
    r
}

/// The value of the first entry of `env` named `key`.
pub fn lookup_env(env: &Vec<(String, String)>, key: &str) -> (r: Option<String>)
    ensures
        match r {
            Some(v) => env_lookup(env@, key@) == Some(v@),
            None => env_lookup(env@, key@) is None,
        },
{
    let mut i: usize = 0;
    assert(env@.skip(0) =~= env@);
    while i < env.len()
        invariant
            0 <= i <= env@.len(),
            env_lookup(env@, key@) == env_lookup(env@.skip(i as int), key@),
        decreases env@.len() - i,
    {
        assert(env@.skip(i as int).drop_first() =~= env@.skip(i + 1));
        if str_eq(env[i].0.as_str(), key) {
            return Some(env[i].1.clone());
        }
        i = i + 1;
    }
    None
}

fn override_field(value: String, env: &Vec<(String, String)>, infix: Option<&str>, field: &str) -> (r:
    String)
    ensures
        r@ == overridden(value@, env@, override_var_name(opt_str_view(infix), field@)),
{
    let key = override_var(infix, field);
    match lookup_env(env, key.as_str()) {
        Some(v) => {
            if v.as_str().unicode_len() > 0 {
                v
            } else {
                value
            }
        },
        None => value,
    }
}

impl WebClientSecret {
    /// Each field is replaced by the value of its variable in `env`
    /// (`OVERRIDE_{INFIX_}FIELD`) when that is set and not empty, and kept
    /// otherwise. `env` holds the environment's name and value pairs.
    pub fn override_from_env(self, infix: Option<&str>, env: &Vec<(String, String)>) -> (r: Self)
        ensures
            overridden_secret(self, opt_str_view(infix), env@, r),
    {
        let WebClientSecret {
            client_id,
            project_id,
            auth_uri,
            token_uri,
            auth_provider_x509_cert_url,
            client_secret,
        } = self;
        WebClientSecret {
            client_id: override_field(client_id, env, infix, "CLIENT_ID"),
            project_id: override_field(project_id, env, infix, "PROJECT_ID"),
            auth_uri: override_field(auth_uri, env, infix, "AUTH_URI"),
            token_uri: override_field(token_uri, env, infix, "TOKEN_URI"),
            auth_provider_x509_cert_url: override_field(
                auth_provider_x509_cert_url,
                env,
                infix,
                "AUTH_PROVIDER_X509_CERT_URL",
            ),
            client_secret: override_field(client_secret, env, infix, "CLIENT_SECRET"),
        }
    }
}

impl ClientSecret {
    /// The override rule of [`WebClientSecret::override_from_env`] on the
    /// `web` entry.
    pub fn override_from_env(self, infix: Option<&str>, env: &Vec<(String, String)>) -> (r: Self)
        ensures
            overridden_secret(self.web, opt_str_view(infix), env@, r.web),
    {
        let ClientSecret { web } = self;
        ClientSecret { web: web.override_from_env(infix, env) }
    }
}

} // verus!
