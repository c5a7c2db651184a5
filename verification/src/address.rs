//! Mailboxes: a validated email address with an optional display name.
//!
//! The textual forms accepted are `local@domain` and `name <local@domain>`
//! (the display name may be empty, trailing spaces before `<` are dropped,
//! and the local part and domain are split at the last `@`). The leaf
//! grammar of local parts and domains is the mail library's; this module
//! states the structure exactly and leaves the two leaf verdicts to it.

use vstd::prelude::*;

use crate::error::AddressError;

verus! {

/// Verdict of the mail library's local-part grammar check, a pure function
/// of the local-part text.
pub uninterp spec fn local_part_ok(user: Seq<char>) -> bool;

/// Verdict of the mail library's domain grammar check (named domain, IP
/// literal, or an internationalised name it can map to ASCII), a pure
/// function of the domain text.
pub uninterp spec fn domain_part_ok(domain: Seq<char>) -> bool;

/// Relies on `lettre::Address::new`, which checks the local part first
/// (`email_address::EmailAddress::is_valid_local_part`) and the domain
/// second (`lettre::Address::check_domain`); each check reads only its own
/// argument.
#[verifier::external_body]
fn check_address_parts(user: &str, domain: &str) -> (r: Result<(), AddressError>)
    ensures
        r == if !local_part_ok(user@) {
            Err::<(), AddressError>(AddressError::InvalidUser)
        } else if !domain_part_ok(domain@) {
            Err::<(), AddressError>(AddressError::InvalidDomain)
        } else {
            Ok::<(), AddressError>(())
        },
{
    match lettre::Address::new(user, domain) {
        Ok(_) => Ok(()),
        Err(lettre::address::AddressError::InvalidDomain) => Err(AddressError::InvalidDomain),
        Err(_) => Err(AddressError::InvalidUser),
    }
}

/// Position of the last `@` in `s`, or `-1` if there is none.
pub open spec fn last_at_index(s: Seq<char>) -> int
    decreases s.len(),
{
    if s.len() == 0 {
        -1
    } else if s.last() == '@' {
        s.len() - 1
    } else {
        last_at_index(s.drop_last())
    }
}

/// Position of the first `<` in `s`, or `-1` if there is none.
pub open spec fn first_lt_index(s: Seq<char>) -> int
    decreases s.len(),
{
    if s.len() == 0 {
        -1
    } else if s.first() == '<' {
        0
    } else if first_lt_index(s.drop_first()) < 0 {
        -1
    } else {
        first_lt_index(s.drop_first()) + 1
    }
}

/// `s` without its trailing spaces.
pub open spec fn trim_trailing_spaces(s: Seq<char>) -> Seq<char>
    decreases s.len(),
{
    if s.len() == 0 {
        s
    } else if s.last() == ' ' {
        trim_trailing_spaces(s.drop_last())
    } else {
        s
    }
}

/// Split an address at its last `@` and hold both sides to the leaf
/// grammar: the local part is checked first, the domain second.
pub open spec fn spec_parse_addr(addr: Seq<char>) -> Result<(Seq<char>, Seq<char>), AddressError> {
    let i = last_at_index(addr);
    if i < 0 {
        Err(AddressError::MissingParts)
    } else {
        let user = addr.subrange(0, i);
        let domain = addr.subrange(i + 1, addr.len() as int);
        if !local_part_ok(user) {
            Err(AddressError::InvalidUser)
        } else if !domain_part_ok(domain) {
            Err(AddressError::InvalidDomain)
        } else {
            Ok((user, domain))
        }
    }
}

/// The mathematical value of a [`Mailbox`].
pub struct MailboxView {
    pub name: Option<Seq<char>>,
    pub user: Seq<char>,
    pub domain: Seq<char>,
}

/// What parsing a mailbox string returns: the bare form is an address
/// alone; the bracketed form is a display name (possibly empty, trailing
/// spaces dropped) before `<address>`, where `>` must end the text.
pub open spec fn spec_parse_mailbox(s: Seq<char>) -> Result<MailboxView, AddressError> {
    let lt = first_lt_index(s);
    if lt < 0 {
        match spec_parse_addr(s) {
            Ok((user, domain)) => Ok(MailboxView { name: None, user, domain }),
            Err(e) => Err(e),
        }
    } else if s.last() != '>' {
        Err(AddressError::Unbalanced)
    } else {
        let raw = trim_trailing_spaces(s.subrange(0, lt));
        let addr = s.subrange(lt + 1, s.len() - 1);
        match spec_parse_addr(addr) {
            Ok((user, domain)) => Ok(
                MailboxView {
                    name: if raw.len() == 0 {
                        None
                    } else {
                        Some(raw)
                    },
                    user,
                    domain,
                },
            ),
            Err(e) => Err(e),
        }
    }
}

/// A validated email address with an optional display name. A value of
/// this type only ever holds an address that passed the grammar checks.
pub struct Mailbox {
    name: Option<String>,
    user: String,
    domain: String,
}

impl View for Mailbox {
    type V = MailboxView;

    closed spec fn view(&self) -> MailboxView {
        MailboxView {
            name: match self.name {
                Some(n) => Some(n@),
                None => None,
            },
            user: self.user@,
            domain: self.domain@,
        }
    }
}

impl Mailbox {
    /// Both halves of the held address passed the leaf grammar.
    #[verifier::type_invariant]
    pub(crate) closed spec fn wf(self) -> bool {
        local_part_ok(self.user@) && domain_part_ok(self.domain@)
    }

    /// Construct a mailbox from its parts, validating the address. The
    /// local part is checked first, the domain second.
    pub fn new(name: Option<String>, user: String, domain: String) -> (r: Result<
        Mailbox,
        AddressError,
    >)
        ensures
            match r {
                Ok(m) => local_part_ok(user@) && domain_part_ok(domain@) && m@.user == user@
                    && m@.domain == domain@ && m@.name == (match name {
                    Some(n) => Some(n@),
                    None => None::<Seq<char>>,
                }),
                Err(e) => {
                    &&& !(local_part_ok(user@) && domain_part_ok(domain@))
                    &&& !local_part_ok(user@) ==> e == AddressError::InvalidUser
                    &&& local_part_ok(user@) && !domain_part_ok(domain@)
                        ==> e == AddressError::InvalidDomain
                },
            },
    {
        match check_address_parts(user.as_str(), domain.as_str()) {
            Ok(()) => Ok(Mailbox { name, user, domain }),
            Err(e) => Err(e),
        }
    }

    /// The local part of the address.
    pub fn user(&self) -> (r: &str)
        ensures
            r@ == self@.user,
    {
        self.user.as_str()
    }

    /// The domain of the address.
    pub fn domain(&self) -> (r: &str)
        ensures
            r@ == self@.domain,
    {
        self.domain.as_str()
    }

    /// The display name, if one was given.
    pub fn name(&self) -> (r: &Option<String>)
        ensures
            match r {
                Some(n) => self@.name == Some(n@),
                None => self@.name is None,
            },
    {
        &self.name
    }

    /// The bare address, local part and domain joined by `@`.
    pub fn address_string(&self) -> (r: String)
        ensures
            r@ == self@.user + seq!['@'] + self@.domain,
    {
        proof {
            reveal_strlit("@");
        }
        let mut out = self.user.clone();
        out.append("@");
        out.append(self.domain.as_str());
        proof {
            assert(out@ =~= self@.user + seq!['@'] + self@.domain);
        }
        out
    }

    /// The display name, local part and domain, the latter two known to
    /// pass the grammar checks: no value of this type holds anything else.
    pub(crate) fn checked_parts(&self) -> (r: (Option<&String>, &str, &str))
        ensures
            local_part_ok(r.1@),
            domain_part_ok(r.2@),
            r.1@ == self@.user,
            r.2@ == self@.domain,
            match r.0 {
                Some(n) => self@.name == Some(n@),
                None => self@.name is None,
            },
    {
        proof {
            use_type_invariant(self);
        }
        (self.name.as_ref(), self.user.as_str(), self.domain.as_str())
    }
}

proof fn lemma_last_at_none(s: Seq<char>)
    requires
        forall|j: int| 0 <= j < s.len() ==> s[j] != '@',
    ensures
        last_at_index(s) == -1,
    decreases s.len(),
{
    if s.len() > 0 {
        lemma_last_at_none(s.drop_last());
    }
}

proof fn lemma_last_at_some(s: Seq<char>, i: int)
    requires
        0 <= i < s.len(),
        s[i] == '@',
        forall|j: int| i < j < s.len() ==> s[j] != '@',
    ensures
        last_at_index(s) == i,
    decreases s.len(),
{
    if i < s.len() - 1 {
        lemma_last_at_some(s.drop_last(), i);
    }
}

proof fn lemma_first_lt_none(s: Seq<char>)
    requires
        forall|j: int| 0 <= j < s.len() ==> s[j] != '<',
    ensures
        first_lt_index(s) == -1,
    decreases s.len(),
{
    if s.len() > 0 {
        assert(forall|j: int| 0 <= j < s.drop_first().len() ==> s.drop_first()[j] != '<');
        lemma_first_lt_none(s.drop_first());
    }
}

proof fn lemma_first_lt_some(s: Seq<char>, i: int)
    requires
        0 <= i < s.len(),
        s[i] == '<',
        forall|j: int| 0 <= j < i ==> s[j] != '<',
    ensures
        first_lt_index(s) == i,
    decreases s.len(),
{
    if i > 0 {
        assert(s.drop_first()[i - 1] == '<');
        lemma_first_lt_some(s.drop_first(), i - 1);
    }
}

proof fn lemma_trim(s: Seq<char>, k: int)
    requires
        0 <= k <= s.len(),
        forall|j: int| k <= j < s.len() ==> s[j] == ' ',
        k > 0 ==> s[k - 1] != ' ',
    ensures
        trim_trailing_spaces(s) == s.subrange(0, k),
    decreases s.len(),
{
    if k == s.len() {
        if k == 0 {
            assert(trim_trailing_spaces(s) =~= s.subrange(0, k));
        } else {
            assert(s.last() != ' ');
            assert(trim_trailing_spaces(s) =~= s.subrange(0, k));
        }
    } else {
        assert(s.last() == ' ');
        lemma_trim(s.drop_last(), k);
        assert(s.drop_last().subrange(0, k) =~= s.subrange(0, k));
    }
}

/// Where `last_at_index` points, there is an `@`.
proof fn lemma_last_at_char(s: Seq<char>)
    ensures
        last_at_index(s) < s.len(),
        last_at_index(s) >= 0 ==> s[last_at_index(s)] == '@',
        last_at_index(s) >= -1,
    decreases s.len(),
{
    if s.len() > 0 && s.last() != '@' {
        lemma_last_at_char(s.drop_last());
    }
}

/// Find the last `@` of `addr`, split there, and hold the halves to the
/// leaf grammar, reporting errors exactly as [`spec_parse_addr`] does.
fn parse_addr_spec(addr: &str) -> (r: Result<(String, String), AddressError>)
    ensures
        match r {
            Ok(p) => spec_parse_addr(addr@) == Ok::<_, AddressError>((p.0@, p.1@))
                && local_part_ok(p.0@) && domain_part_ok(p.1@),
            Err(e) => spec_parse_addr(addr@) == Err::<(Seq<char>, Seq<char>), AddressError>(e),
        },
{
    let m = addr.unicode_len();
    let mut at: usize = m;
    let mut i: usize = 0;
    while i < m
        invariant
            m == addr@.len(),
            i <= m,
            at == m || at < i,
            at == m ==> forall|j: int| 0 <= j < i ==> addr@[j] != '@',
            at < m ==> addr@[at as int] == '@' && (forall|j: int|
                at < j < i ==> addr@[j] != '@'),
        decreases m - i,
    {
        if addr.get_char(i) == '@' {
            at = i;
        }
        i += 1;
    }
    if at == m {
        proof {
            lemma_last_at_none(addr@);
        }
        return Err(AddressError::MissingParts);
    }
    proof {
        lemma_last_at_some(addr@, at as int);
    }
    let user = addr.substring_char(0, at);
    let domain = addr.substring_char(at + 1, m);
    match check_address_parts(user, domain) {
        Ok(()) => Ok((user.to_owned(), domain.to_owned())),
        Err(e) => Err(e),
    }
}

/// Parse a mailbox string: `local@domain`, or `name <local@domain>`.
/// Returns exactly what [`spec_parse_mailbox`] says, so construction
/// succeeds precisely on the syntactically valid strings and each invalid
/// string is rejected with the stated error before anything else happens.
pub fn parse_mailbox(s: &str) -> (r: Result<Mailbox, AddressError>)
    ensures
        match r {
            Ok(m) => spec_parse_mailbox(s@) == Ok::<MailboxView, AddressError>(m@),
            Err(e) => spec_parse_mailbox(s@) == Err::<MailboxView, AddressError>(e),
        },
{
    let n = s.unicode_len();
    let mut lt: usize = n;
    let mut i: usize = 0;
    while i < n
        invariant
            n == s@.len(),
            i <= n,
            lt <= n,
            lt == n ==> forall|j: int| 0 <= j < i ==> s@[j] != '<',
            lt < n ==> s@[lt as int] == '<' && (forall|j: int| 0 <= j < lt ==> s@[j] != '<'),
        decreases n - i,
    {
        if lt == n && s.get_char(i) == '<' {
            lt = i;
        }
        i += 1;
    }
    if lt == n {
        proof {
            lemma_first_lt_none(s@);
        }
        match parse_addr_spec(s) {
            Ok(p) => Ok(Mailbox { name: None, user: p.0, domain: p.1 }),
            Err(e) => Err(e),
        }
    } else {
        proof {
            lemma_first_lt_some(s@, lt as int);
        }
        if s.get_char(n - 1) != '>' {
            return Err(AddressError::Unbalanced);
        }
        assert(lt < n - 1);
        let addr = s.substring_char(lt + 1, n - 1);
        let raw = s.substring_char(0, lt);
        let mut k: usize = lt;
        let mut stop = false;
        while k > 0 && !stop
            invariant
                k <= lt,
                raw@.len() == lt as int,
                forall|j: int| k <= j < lt ==> raw@[j] == ' ',
                stop ==> k > 0 && raw@[k - 1] != ' ',
            decreases k + (if stop {
                0int
            } else {
                1int
            }),
        {
            if raw.get_char(k - 1) == ' ' {
                k -= 1;
            } else {
                stop = true;
            }
        }
        proof {
            lemma_trim(raw@, k as int);
        }
        let name = if k == 0 {
            None
        } else {
            Some(raw.substring_char(0, k).to_owned())
        };
        match parse_addr_spec(addr) {
            Ok(p) => Ok(Mailbox { name, user: p.0, domain: p.1 }),
            Err(e) => Err(e),
        }
    }
}

/// Round trip: a plain address string (one without a display-name form)
/// that parses reassembles, local part then `@` then domain, into exactly
/// the text that was parsed. The authentication identity derived from a
/// parsed sender is therefore the configured sender address itself.
pub proof fn lemma_parse_round_trip(s: Seq<char>)
    requires
        !s.contains('<'),
        spec_parse_mailbox(s) is Ok,
    ensures
        spec_parse_mailbox(s)->Ok_0.user + seq!['@'] + spec_parse_mailbox(s)->Ok_0.domain =~= s,
        spec_parse_mailbox(s)->Ok_0.name is None,
{
    assert forall|j: int| 0 <= j < s.len() implies s[j] != '<' by {
        if s[j] == '<' {
            assert(s.contains('<'));
        }
    }
    lemma_first_lt_none(s);
    lemma_last_at_char(s);
    let i = last_at_index(s);
    assert(s[i] == '@');
    assert(s.subrange(0, i) + seq!['@'] + s.subrange(i + 1, s.len() as int) =~= s);
}

} // verus!
