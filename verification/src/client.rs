//! The advisor's client, and the names that follow from its own.

use crate::text::cat2;
use vstd::prelude::*;

verus! {

/// The advisor's client.
#[derive(Debug)]
pub struct Client {
    /// Its program. The family of its models and the adapter that drives it have
    /// the same name, and so has its directory, behind a dot.
    pub name: String,
    /// Its name at the beginning of a title.
    pub title: String,
    /// The file in which it finds a repository's instructions.
    pub instructions: String,
}

/// What a [`Client`] says.
#[verifier::ext_equal]
pub struct ClientView {
    pub name: Seq<char>,
    pub title: Seq<char>,
    pub instructions: Seq<char>,
}

impl DeepView for Client {
    type V = ClientView;

    open spec fn deep_view(&self) -> ClientView {
        ClientView {
            name: self.name@,
            title: self.title@,
            instructions: self.instructions@,
        }
    }
}

impl ClientView {
    /// The directory of its own files.
    pub open spec fn dir(self) -> Seq<char> {
        "."@ + self.name
    }

    /// The model behind the shim where a profile names none.
    pub open spec fn shim_model(self) -> Seq<char> {
        self.name + "-haiku-4-5"@
    }
}

impl Client {
    /// The directory of its own files.
    pub fn dir(&self) -> (r: String)
        ensures
            r@ == self.deep_view().dir(),
    {
        cat2(".", &self.name)
    }

    /// The model behind the shim where a profile names none.
    pub fn shim_model(&self) -> (r: String)
        ensures
            r@ == self.deep_view().shim_model(),
    {
        cat2(&self.name, "-haiku-4-5")
    }
}

/// The names that follow from a client's own: its directory is the name behind a
/// dot, and the model behind the shim is of the family of that name.
pub proof fn law_names_follow_from_the_name(client: ClientView)
    ensures
        client.dir().len() == client.name.len() + 1,
        client.dir()[0] == '.',
        client.dir().skip(1) == client.name,
        client.shim_model().take(client.name.len() as int) == client.name,
        client.shim_model().skip(client.name.len() as int) == "-haiku-4-5"@,
{
    reveal_strlit(".");
    assert(client.dir().skip(1) =~= client.name);
    assert(client.shim_model().take(client.name.len() as int) =~= client.name);
    assert(client.shim_model().skip(client.name.len() as int) =~= "-haiku-4-5"@);
}

} // verus!
