//! The identities a new payer starts with.

use vstd::prelude::*;
use crate::schema::forms::InsertPayerForm;
use crate::text::text_eq;

verus! {

/// The Bedrock edition name of a payer: the one given, or else the Java
/// edition name after a dot, as Floodgate names Bedrock players who have
/// not linked an account.
pub open spec fn bedrock_name(java: Seq<char>, bedrock: Option<Seq<char>>) -> Seq<char> {
    match bedrock {
        Some(b) => b,
        None => "."@ + java,
    }
}

/// The names of the identities a new payer gets: the Java edition name,
/// then the Bedrock edition name unless it is the same.
pub open spec fn payer_identity_names(java: Seq<char>, bedrock: Option<Seq<char>>) -> Seq<Seq<char>> {
    if bedrock_name(java, bedrock) == java {
        seq![java]
    } else {
        seq![java, bedrock_name(java, bedrock)]
    }
}

/// The optional text `t` as plain characters.
pub open spec fn opt_text(t: Option<&str>) -> Option<Seq<char>> {
    match t {
        Some(s) => Some(s@),
        None => None,
    }
}

impl<'a> InsertPayerForm<'a> {
    /// The Bedrock edition name the payer is recorded under.
    pub fn bedrock_name(&self) -> (r: String)
        ensures
            r@ == bedrock_name(self.java_username@, opt_text(self.bedrock_username)),
    {
        match self.bedrock_username {
            Some(b) => b.to_owned(),
            None => {
                let mut r = ".".to_owned();
                r.append(self.java_username);
                r
            },
        }
    }

    /// The names of the identities the payer is recorded with, in the
    /// order they are inserted. Two equal names would break the database's
    /// uniqueness rule, so a Bedrock name equal to the Java one is left out.
    pub fn identity_names(&self) -> (r: Vec<String>)
        ensures
            r@.map_values(|s: String| s@) == payer_identity_names(self.java_username@, opt_text(self.bedrock_username)),
    {
        let bedrock = self.bedrock_name();
        let mut r: Vec<String> = Vec::new();
        r.push(self.java_username.to_owned());
        if !text_eq(bedrock.as_str(), self.java_username) {
            r.push(bedrock);
        }
        assert(r@.map_values(|s: String| s@) =~= payer_identity_names(self.java_username@, opt_text(self.bedrock_username)));
        r
    }
}

/// A new payer always gets one identity under its Java edition name, first,
/// and at most one more.
pub proof fn law_payer_starts_with_java_identity(java: Seq<char>, bedrock: Option<Seq<char>>)
    ensures
        1 <= payer_identity_names(java, bedrock).len() <= 2,
        payer_identity_names(java, bedrock)[0] == java,
        payer_identity_names(java, bedrock).len() == 2 ==> payer_identity_names(java, bedrock)[1] != java,
{
}

/// Without a Bedrock edition name, a payer gets two identities, the second
/// being the Java name after a dot.
pub proof fn law_payer_default_bedrock_identity(java: Seq<char>)
    ensures
        payer_identity_names(java, None) == seq![java, "."@ + java],
{
    reveal_strlit(".");
    assert(("."@ + java).len() != java.len());
}

} // verus!
