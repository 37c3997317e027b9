//! The naming side of a sandbox: every symlink and socket placed in the
//! sandbox directory gets a fresh name from a pair of counters.
use vstd::prelude::*;
use crate::text::{decimal, lemma_decimal_injective, u64_to_decimal};

verus! {

/// The name of the `i`-th symlink of a sandbox.
pub open spec fn link_name(i: nat) -> Seq<char> {
    "link"@ + decimal(i)
}

/// The name of the `i`-th socket of a sandbox.
pub open spec fn socket_name(i: nat) -> Seq<char> {
    "sock"@ + decimal(i)
}

/// The name of the subdirectory that holds the embedded boot file.
pub open spec fn boot_file_dir() -> Seq<char> {
    "tftp"@
}

/// The counters that name what a sandbox holds.
#[derive(Debug)]
pub struct SandboxNames {
    pub next_link: u64,
    pub next_socket: u64,
}

impl SandboxNames {
    /// Counters for an empty sandbox.
    pub fn new() -> (r: SandboxNames)
        ensures
            r.next_link == 0,
            r.next_socket == 0,
    {
        SandboxNames { next_link: 0, next_socket: 0 }
    }

    /// A fresh symlink name.
    pub fn link(&mut self) -> (r: String)
        requires
            old(self).next_link < u64::MAX,
        ensures
            r@ == link_name(old(self).next_link as nat),
            final(self).next_link == old(self).next_link + 1,
            final(self).next_socket == old(self).next_socket,
    {
        let mut name = "link".to_owned();
        name.append(u64_to_decimal(self.next_link).as_str());
        self.next_link = self.next_link + 1;
        name
    }

    /// A fresh socket name.
    pub fn socket(&mut self) -> (r: String)
        requires
            old(self).next_socket < u64::MAX,
        ensures
            r@ == socket_name(old(self).next_socket as nat),
            final(self).next_socket == old(self).next_socket + 1,
            final(self).next_link == old(self).next_link,
    {
        let mut name = "sock".to_owned();
        name.append(u64_to_decimal(self.next_socket).as_str());
        self.next_socket = self.next_socket + 1;
        name
    }
}

/// The names a sandbox hands out never collide: two symlinks, two sockets, a
/// symlink and a socket, or either of them and the boot-file directory.
pub proof fn lemma_sandbox_names_distinct(i: nat, j: nat)
    ensures
        i != j ==> link_name(i) != link_name(j),
        i != j ==> socket_name(i) != socket_name(j),
        link_name(i) != socket_name(j),
        link_name(i) != boot_file_dir(),
        socket_name(i) != boot_file_dir(),
{
    reveal_strlit("link");
    reveal_strlit("sock");
    reveal_strlit("tftp");
    crate::text::lemma_decimal_nonempty(i);
    if link_name(i) == link_name(j) {
        assert(decimal(i) =~= link_name(i).subrange(4, link_name(i).len() as int));
        assert(decimal(j) =~= link_name(j).subrange(4, link_name(j).len() as int));
        lemma_decimal_injective(i, j);
    }
    if socket_name(i) == socket_name(j) {
        assert(decimal(i) =~= socket_name(i).subrange(4, socket_name(i).len() as int));
        assert(decimal(j) =~= socket_name(j).subrange(4, socket_name(j).len() as int));
        lemma_decimal_injective(i, j);
    }
    assert(link_name(i)[0] == 'l');
    assert(socket_name(j)[0] == 's');
    assert(boot_file_dir()[0] == 't');
    assert(socket_name(i)[0] == 's');
}

} // verus!
