use vstd::prelude::*;

verus! {

/// How the token request body is encoded.
#[derive(Clone, Copy, Debug, PartialEq, Eq)]
pub enum ContentTypeEnum {
    /// json content type
    Json,
    /// form content type
    Form,
}

impl ContentTypeEnum {
    /// Parses the option value naming a content type (`json` or `form`).
    pub fn parse(s: &str) -> (r: Option<ContentTypeEnum>)
        ensures
            s@ == seq!['j', 's', 'o', 'n'] ==> r == Some(ContentTypeEnum::Json),
            s@ == seq!['f', 'o', 'r', 'm'] ==> r == Some(ContentTypeEnum::Form),
            s@ != seq!['j', 's', 'o', 'n'] && s@ != seq!['f', 'o', 'r', 'm'] ==> r is None,
    {
        let n = s.unicode_len();
        if n != 4 {
            return None;
        }
        let c0 = s.get_char(0);
        let c1 = s.get_char(1);
        let c2 = s.get_char(2);
        let c3 = s.get_char(3);
        if c0 == 'j' && c1 == 's' && c2 == 'o' && c3 == 'n' {
            assert(s@ =~= seq!['j', 's', 'o', 'n']);
            Some(ContentTypeEnum::Json)
        } else if c0 == 'f' && c1 == 'o' && c2 == 'r' && c3 == 'm' {
            assert(s@ =~= seq!['f', 'o', 'r', 'm']);
            Some(ContentTypeEnum::Form)
        } else {
            None
        }
    }
}

/// Where the identity server's admin API lives.
#[derive(Clone, Debug, PartialEq, Eq)]
pub struct AuthOpts {
    /// host url
    pub host_url: String,
    /// Issuer
    pub realm: String,
}

} // verus!
