//! Topic names on the bus: `category_id` or `category_id1_id2`, with decimal ids.

use vstd::prelude::*;

verus! {

/// The character that separates the parts of a topic name.
pub const SEPARATOR: char = '_';

/// The kinds of events that travel on the bus, one per topic prefix.
#[derive(Clone, Copy, Debug, PartialEq, Eq, Structural)]
pub enum Category {
    Channel,
    Message,
    Guild,
    Member,
    Invite,
}

/// A parsed topic: its category and the identifiers it names.
#[derive(Clone, Copy, Debug, PartialEq, Eq, Structural)]
pub enum Topic {
    /// `channel_{channel id}_{guild id}`
    Channel { channel_id: u128, guild_id: u128 },
    /// `message_{channel id}_{guild id}`
    Message { channel_id: u128, guild_id: u128 },
    /// `guild_{guild id}`
    Guild { guild_id: u128 },
    /// `member_{guild id}`
    Member { guild_id: u128 },
    /// `invite_{guild id}`
    Invite { guild_id: u128 },
}

/// The prefix that names a category in a topic.
pub open spec fn spec_prefix(c: Category) -> Seq<char> {
    match c {
        Category::Channel => seq!['c', 'h', 'a', 'n', 'n', 'e', 'l'],
        Category::Message => seq!['m', 'e', 's', 's', 'a', 'g', 'e'],
        Category::Guild => seq!['g', 'u', 'i', 'l', 'd'],
        Category::Member => seq!['m', 'e', 'm', 'b', 'e', 'r'],
        Category::Invite => seq!['i', 'n', 'v', 'i', 't', 'e'],
    }
}

/// How many identifiers follow the prefix of a category.
pub open spec fn spec_arity(c: Category) -> nat {
    match c {
        Category::Channel | Category::Message => 2,
        _ => 1,
    }
}

/// The category whose prefix is `w`, if any.
pub open spec fn category_named(w: Seq<char>) -> Option<Category> {
    if w == spec_prefix(Category::Channel) {
        Some(Category::Channel)
    } else if w == spec_prefix(Category::Message) {
        Some(Category::Message)
    } else if w == spec_prefix(Category::Guild) {
        Some(Category::Guild)
    } else if w == spec_prefix(Category::Member) {
        Some(Category::Member)
    } else if w == spec_prefix(Category::Invite) {
        Some(Category::Invite)
    } else {
        None
    }
}

/// The parts of `s` between separators, in order; there is always at least one.
pub open spec fn split_parts(s: Seq<char>) -> Seq<Seq<char>>
    decreases s.len(),
{
    if s.len() == 0 {
        seq![Seq::empty()]
    } else {
        let before = split_parts(s.drop_last());
        if s.last() == SEPARATOR {
            before.push(Seq::empty())
        } else {
            before.update(before.len() - 1, before.last().push(s.last()))
        }
    }
}

impl Category {
    pub open spec fn prefix(self) -> Seq<char> {
        spec_prefix(self)
    }

    pub open spec fn arity(self) -> nat {
        spec_arity(self)
    }
}

impl Topic {
    /// The category of the topic.
    pub open spec fn spec_category(self) -> Category {
        match self {
            Topic::Channel { .. } => Category::Channel,
            Topic::Message { .. } => Category::Message,
            Topic::Guild { .. } => Category::Guild,
            Topic::Member { .. } => Category::Member,
            Topic::Invite { .. } => Category::Invite,
        }
    }

    /// The identifiers of the topic, in the order they stand in its name.
    pub open spec fn spec_ids(self) -> Seq<u128> {
        match self {
            Topic::Channel { channel_id, guild_id } => seq![channel_id, guild_id],
            Topic::Message { channel_id, guild_id } => seq![channel_id, guild_id],
            Topic::Guild { guild_id } => seq![guild_id],
            Topic::Member { guild_id } => seq![guild_id],
            Topic::Invite { guild_id } => seq![guild_id],
        }
    }
}

/// The topic of a category with the given identifiers.
pub open spec fn make_topic(c: Category, first: u128, second: u128) -> Topic {
    match c {
        Category::Channel => Topic::Channel { channel_id: first, guild_id: second },
        Category::Message => Topic::Message { channel_id: first, guild_id: second },
        Category::Guild => Topic::Guild { guild_id: first },
        Category::Member => Topic::Member { guild_id: first },
        Category::Invite => Topic::Invite { guild_id: first },
    }
}

/// What a topic name means: the first part selects the category, and exactly
/// as many identifiers as the category asks for follow it. Any other name
/// means nothing to the gateway.
pub open spec fn spec_parse_topic(name: Seq<char>) -> Option<Topic> {
    let parts = split_parts(name);
    match category_named(parts[0]) {
        None => None,
        Some(c) => {
            if parts.len() != 1 + c.arity() {
                None
            } else if c.arity() == 2 {
                match (spec_parse_id(parts[1]), spec_parse_id(parts[2])) {
                    (Some(a), Some(b)) => Some(make_topic(c, a, b)),
                    _ => None,
                }
            } else {
                match spec_parse_id(parts[1]) {
                    Some(a) => Some(make_topic(c, a, 0)),
                    None => None,
                }
            }
        },
    }
}

/// The character of a digit value.
pub open spec fn digit_char(d: nat) -> char {
    if d == 0 { '0' }
    else if d == 1 { '1' }
    else if d == 2 { '2' }
    else if d == 3 { '3' }
    else if d == 4 { '4' }
    else if d == 5 { '5' }
    else if d == 6 { '6' }
    else if d == 7 { '7' }
    else if d == 8 { '8' }
    else { '9' }
}

/// The decimal representation of `n`, without leading zeros.
pub open spec fn decimal_digits(n: nat) -> Seq<char>
    decreases n,
{
    if n < 10 {
        seq![digit_char(n)]
    } else {
        decimal_digits(n / 10).push(digit_char(n % 10))
    }
}

/// The name under which events of a topic are published.
pub open spec fn topic_name(t: Topic) -> Seq<char> {
    let ids = t.spec_ids();
    let head = t.spec_category().prefix() + seq![SEPARATOR] + decimal_digits(ids[0] as nat);
    if ids.len() == 2 {
        head + seq![SEPARATOR] + decimal_digits(ids[1] as nat)
    } else {
        head
    }
}

/// The bus pattern that matches every topic naming the identifier `id`.
pub open spec fn spec_pattern(id: u128) -> Seq<char> {
    seq!['*'] + decimal_digits(id as nat) + seq!['*']
}

/// A decimal digit character.
pub open spec fn is_digit(c: char) -> bool {
    '0' <= c && c <= '9'
}

/// The value of a digit character.
pub open spec fn digit_value(c: char) -> nat {
    (c as int - '0' as int) as nat
}

/// The value of a string of digits, most significant first.
pub open spec fn decimal_value(s: Seq<char>) -> nat
    decreases s.len(),
{
    if s.len() == 0 {
        0
    } else {
        decimal_value(s.drop_last()) * 10 + digit_value(s.last())
    }
}

/// A string of one or more digits.
pub open spec fn is_decimal(s: Seq<char>) -> bool {
    s.len() > 0 && forall|i: int| 0 <= i < s.len() ==> is_digit(#[trigger] s[i])
}

/// An identifier as it stands in a topic: decimal digits, optionally after a
/// `+` sign, whose value fits in 128 bits.
pub open spec fn spec_parse_id(s: Seq<char>) -> Option<u128> {
    let digits = if s.len() > 0 && s[0] == '+' {
        s.drop_first()
    } else {
        s
    };
    if is_decimal(digits) && decimal_value(digits) <= u128::MAX {
        Some(decimal_value(digits) as u128)
    } else {
        None
    }
}

fn digit_of(c: char) -> (r: Option<u8>)
    ensures
        is_digit(c) <==> r is Some,
        r matches Some(d) ==> d as nat == digit_value(c) && d < 10,
{
    if '0' <= c && c <= '9' {
        Some((c as u32 - '0' as u32) as u8)
    } else {
        None
    }
}

/// Reads the digits of `s` from position `start` on as a number.
fn parse_digits(s: &Vec<char>, start: usize) -> (r: Option<u128>)
    requires
        start <= s@.len(),
    ensures
        ({
            let d = s@.subrange(start as int, s@.len() as int);
            r == if is_decimal(d) && decimal_value(d) <= u128::MAX {
                Some(decimal_value(d) as u128)
            } else {
                None
            }
        }),
{
    let n = s.len();
    if start == n {
        return None;
    }
    let mut value: u128 = 0;
    let mut overflow = false;
    let mut i = start;
    while i < n
        invariant
            start <= i <= n,
            n == s@.len(),
            forall|k: int| start <= k < i ==> is_digit(#[trigger] s@[k]),
            overflow ==> decimal_value(s@.subrange(start as int, i as int)) > u128::MAX,
            !overflow ==> value == decimal_value(s@.subrange(start as int, i as int)),
        decreases n - i,
    {
        let ghost prev = s@.subrange(start as int, i as int);
        let ghost next = s@.subrange(start as int, i + 1);
        assert(next.drop_last() =~= prev);
        match digit_of(s[i]) {
            None => {
                let ghost d = s@.subrange(start as int, n as int);
                assert(d[i - start] == s@[i as int]);
                return None;
            },
            Some(d) => {
                if !overflow {
                    if value > (u128::MAX - d as u128) / 10 {
                        overflow = true;
                    } else {
                        value = value * 10 + d as u128;
                    }
                }
            },
        }
        i = i + 1;
    }
    let ghost d = s@.subrange(start as int, n as int);
    assert forall|k: int| 0 <= k < d.len() implies is_digit(#[trigger] d[k]) by {
        assert(d[k] == s@[start + k]);
    }
    if overflow {
        None
    } else {
        Some(value)
    }
}

/// Parses an identifier of a topic name.
pub fn parse_id(s: &Vec<char>) -> (r: Option<u128>)
    ensures
        r == spec_parse_id(s@),
{
    if s.len() > 0 && s[0] == '+' {
        assert(s@.subrange(1, s@.len() as int) =~= s@.drop_first());
        parse_digits(s, 1)
    } else {
        assert(s@.subrange(0, s@.len() as int) =~= s@);
        parse_digits(s, 0)
    }
}

pub proof fn lemma_split_parts_nonempty(s: Seq<char>)
    ensures
        split_parts(s).len() >= 1,
    decreases s.len(),
{
    if s.len() > 0 {
        lemma_split_parts_nonempty(s.drop_last());
    }
}

proof fn lemma_digit_char(d: nat)
    requires
        d < 10,
    ensures
        is_digit(digit_char(d)),
        digit_value(digit_char(d)) == d,
{
}

pub proof fn lemma_decimal_digits(n: nat)
    ensures
        is_decimal(decimal_digits(n)),
        decimal_value(decimal_digits(n)) == n,
    decreases n,
{
    if n < 10 {
        lemma_digit_char(n);
        let d = decimal_digits(n);
        assert(d.drop_last() =~= Seq::<char>::empty());
        assert(decimal_value(d) == decimal_value(d.drop_last()) * 10 + digit_value(d.last()));
    } else {
        lemma_digit_char(n % 10);
        assert(n == (n / 10) * 10 + n % 10);
        lemma_decimal_digits(n / 10);
        let d = decimal_digits(n);
        assert(d.drop_last() =~= decimal_digits(n / 10));
        assert(d.last() == digit_char(n % 10));
        assert(decimal_value(d) == decimal_value(d.drop_last()) * 10 + digit_value(d.last()));
        assert forall|i: int| 0 <= i < d.len() implies is_digit(#[trigger] d[i]) by {
            if i < d.len() - 1 {
                assert(d[i] == decimal_digits(n / 10)[i]);
            }
        }
    }
}

/// Appending characters free of separators only lengthens the last part.
pub proof fn lemma_split_append_plain(a: Seq<char>, b: Seq<char>)
    requires
        !b.contains(SEPARATOR),
    ensures
        split_parts(a + b) == split_parts(a).update(
            split_parts(a).len() - 1,
            split_parts(a).last() + b,
        ),
    decreases b.len(),
{
    lemma_split_parts_nonempty(a);
    if b.len() == 0 {
        assert(a + b =~= a);
        assert(split_parts(a).last() + b =~= split_parts(a).last());
        assert(split_parts(a).update(split_parts(a).len() - 1, split_parts(a).last())
            =~= split_parts(a));
    } else {
        let b0 = b.drop_last();
        assert(!b0.contains(SEPARATOR)) by {
            if b0.contains(SEPARATOR) {
                let i = choose|i: int| 0 <= i < b0.len() && b0[i] == SEPARATOR;
                assert(b[i] == SEPARATOR);
            }
        }
        lemma_split_append_plain(a, b0);
        assert((a + b).drop_last() =~= a + b0);
        assert(b.last() != SEPARATOR) by {
            assert(b[b.len() - 1] == b.last());
        }
        assert((split_parts(a).last() + b0).push(b.last()) =~= split_parts(a).last() + b);
        assert(split_parts(a + b) =~= split_parts(a).update(
            split_parts(a).len() - 1,
            split_parts(a).last() + b,
        ));
    }
}

proof fn lemma_digits_plain(n: nat)
    ensures
        !decimal_digits(n).contains(SEPARATOR),
{
    lemma_decimal_digits(n);
    let d = decimal_digits(n);
    if d.contains(SEPARATOR) {
        let i = choose|i: int| 0 <= i < d.len() && d[i] == SEPARATOR;
        assert(is_digit(d[i]));
    }
}

proof fn lemma_prefix_plain(c: Category)
    ensures
        !c.prefix().contains(SEPARATOR),
{
    let p = c.prefix();
    if p.contains(SEPARATOR) {
        let i = choose|i: int| 0 <= i < p.len() && p[i] == SEPARATOR;
        assert(p[i] != SEPARATOR);
    }
}

proof fn lemma_split_then_plain(a: Seq<char>, b: Seq<char>)
    requires
        !b.contains(SEPARATOR),
    ensures
        split_parts(a + seq![SEPARATOR] + b) == split_parts(a).push(b),
{
    let a1 = a + seq![SEPARATOR];
    assert(a1.drop_last() =~= a);
    assert(split_parts(a1) == split_parts(a).push(Seq::empty()));
    lemma_split_append_plain(a1, b);
    assert(Seq::<char>::empty() + b =~= b);
    assert(split_parts(a1 + b) =~= split_parts(a).push(b));
}

proof fn lemma_parse_id_digits(n: u128)
    ensures
        spec_parse_id(decimal_digits(n as nat)) == Some(n),
{
    lemma_decimal_digits(n as nat);
    assert(is_digit(decimal_digits(n as nat)[0]));
}

/// Parsing the name under which a topic is published gives the topic back.
pub proof fn lemma_parse_topic_name(t: Topic)
    ensures
        spec_parse_topic(topic_name(t)) == Some(t),
{
    let c = t.spec_category();
    let ids = t.spec_ids();
    let p = c.prefix();
    let d0 = decimal_digits(ids[0] as nat);
    lemma_prefix_plain(c);
    lemma_digits_plain(ids[0] as nat);
    lemma_parse_id_digits(ids[0]);
    lemma_split_append_plain(Seq::empty(), p);
    assert(Seq::<char>::empty() + p =~= p);
    assert(split_parts(Seq::<char>::empty()) =~= seq![Seq::<char>::empty()]);
    assert(split_parts(p) =~= seq![p]);
    lemma_split_then_plain(p, d0);
    let head = p + seq![SEPARATOR] + d0;
    assert(split_parts(head) =~= seq![p, d0]);
    if ids.len() == 2 {
        let d1 = decimal_digits(ids[1] as nat);
        lemma_digits_plain(ids[1] as nat);
        lemma_parse_id_digits(ids[1]);
        lemma_split_then_plain(head, d1);
        assert(split_parts(topic_name(t)) =~= seq![p, d0, d1]);
    }
}

/// The characters of a string.
fn chars_of(s: &str) -> (r: Vec<char>)
    ensures
        r@ == s@,
{
    let n = s.unicode_len();
    let mut r: Vec<char> = Vec::new();
    let mut i: usize = 0;
    while i < n
        invariant
            i <= n,
            n == s@.len(),
            r@ == s@.subrange(0, i as int),
        decreases n - i,
    {
        r.push(s.get_char(i));
        i = i + 1;
        assert(r@ =~= s@.subrange(0, i as int));
    }
    assert(r@ =~= s@);
    r
}

/// Splits a name at its separators.
fn split_name(s: &Vec<char>) -> (r: Vec<Vec<char>>)
    ensures
        r@.len() == split_parts(s@).len(),
        forall|k: int| 0 <= k < r@.len() ==> (#[trigger] r@[k])@ == split_parts(s@)[k],
{
    let n = s.len();
    let mut done: Vec<Vec<char>> = Vec::new();
    let mut cur: Vec<char> = Vec::new();
    let mut i: usize = 0;
    while i < n
        invariant
            i <= n,
            n == s@.len(),
            split_parts(s@.subrange(0, i as int)).len() == done@.len() + 1,
            forall|k: int|
                0 <= k < done@.len() ==> (#[trigger] done@[k])@ == split_parts(
                    s@.subrange(0, i as int),
                )[k],
            cur@ == split_parts(s@.subrange(0, i as int)).last(),
        decreases n - i,
    {
        let ghost prev = s@.subrange(0, i as int);
        proof {
            lemma_split_parts_nonempty(prev);
        }
        assert(s@.subrange(0, i + 1).drop_last() =~= prev);
        let c = s[i];
        if c == SEPARATOR {
            let finished = cur;
            done.push(finished);
            cur = Vec::new();
        } else {
            cur.push(c);
        }
        i = i + 1;
        assert(cur@ =~= split_parts(s@.subrange(0, i as int)).last());
    }
    assert(s@.subrange(0, n as int) =~= s@);
    done.push(cur);
    done
}

/// Whether `w` spells `word`.
fn spells(w: &Vec<char>, word: &str) -> (r: bool)
    ensures
        r == (w@ == word@),
{
    let n = word.unicode_len();
    if w.len() != n {
        return false;
    }
    let mut i: usize = 0;
    while i < n
        invariant
            i <= n,
            n == word@.len(),
            n == w@.len(),
            forall|k: int| 0 <= k < i ==> w@[k] == word@[k],
        decreases n - i,
    {
        if w[i] != word.get_char(i) {
            return false;
        }
        i = i + 1;
    }
    assert(w@ =~= word@);
    true
}

impl Category {
    /// The prefix that names the category in a topic.
    pub fn prefix_str(&self) -> (r: &'static str)
        ensures
            r@ == self.prefix(),
    {
        match self {
            Category::Channel => {
                proof {
                    reveal_strlit("channel");
                }
                "channel"
            },
            Category::Message => {
                proof {
                    reveal_strlit("message");
                }
                "message"
            },
            Category::Guild => {
                proof {
                    reveal_strlit("guild");
                }
                "guild"
            },
            Category::Member => {
                proof {
                    reveal_strlit("member");
                }
                "member"
            },
            Category::Invite => {
                proof {
                    reveal_strlit("invite");
                }
                "invite"
            },
        }
    }

    /// How many identifiers follow the prefix.
    pub fn arity_count(&self) -> (r: usize)
        ensures
            r as nat == self.arity(),
    {
        match self {
            Category::Channel | Category::Message => 2,
            _ => 1,
        }
    }
}

/// The category that a topic prefix names, if any.
pub fn category_from_prefix(w: &Vec<char>) -> (r: Option<Category>)
    ensures
        r == category_named(w@),
{
    if spells(w, Category::Channel.prefix_str()) {
        Some(Category::Channel)
    } else if spells(w, Category::Message.prefix_str()) {
        Some(Category::Message)
    } else if spells(w, Category::Guild.prefix_str()) {
        Some(Category::Guild)
    } else if spells(w, Category::Member.prefix_str()) {
        Some(Category::Member)
    } else if spells(w, Category::Invite.prefix_str()) {
        Some(Category::Invite)
    } else {
        None
    }
}

fn topic_of(c: Category, first: u128, second: u128) -> (r: Topic)
    ensures
        r == make_topic(c, first, second),
{
    match c {
        Category::Channel => Topic::Channel { channel_id: first, guild_id: second },
        Category::Message => Topic::Message { channel_id: first, guild_id: second },
        Category::Guild => Topic::Guild { guild_id: first },
        Category::Member => Topic::Member { guild_id: first },
        Category::Invite => Topic::Invite { guild_id: first },
    }
}

fn digit_str(d: u128) -> (r: &'static str)
    requires
        d < 10,
    ensures
        r@ == seq![digit_char(d as nat)],
{
    match d {
        0 => {
            proof {
                reveal_strlit("0");
            }
            "0"
        },
        1 => {
            proof {
                reveal_strlit("1");
            }
            "1"
        },
        2 => {
            proof {
                reveal_strlit("2");
            }
            "2"
        },
        3 => {
            proof {
                reveal_strlit("3");
            }
            "3"
        },
        4 => {
            proof {
                reveal_strlit("4");
            }
            "4"
        },
        5 => {
            proof {
                reveal_strlit("5");
            }
            "5"
        },
        6 => {
            proof {
                reveal_strlit("6");
            }
            "6"
        },
        7 => {
            proof {
                reveal_strlit("7");
            }
            "7"
        },
        8 => {
            proof {
                reveal_strlit("8");
            }
            "8"
        },
        _ => {
            proof {
                reveal_strlit("9");
            }
            "9"
        },
    }
}

/// Appends the decimal representation of `n` to `out`.
fn append_decimal(out: &mut String, n: u128)
    ensures
        final(out)@ == old(out)@ + decimal_digits(n as nat),
    decreases n,
{
    if n >= 10 {
        append_decimal(out, n / 10);
    }
    out.append(digit_str(n % 10));
    proof {
        if n >= 10 {
            assert(decimal_digits(n as nat) == decimal_digits((n / 10) as nat).push(
                digit_char((n % 10) as nat),
            ));
        }
    }
    assert(final(out)@ =~= old(out)@ + decimal_digits(n as nat));
}

/// The decimal representation of `n`.
pub fn decimal_string(n: u128) -> (r: String)
    ensures
        r@ == decimal_digits(n as nat),
{
    let mut out = String::new();
    append_decimal(&mut out, n);
    assert(out@ =~= decimal_digits(n as nat));
    out
}

/// The bus pattern under which a connection subscribes to everything that
/// names `id`: the id between two wildcards.
pub fn subscription_pattern(id: u128) -> (r: String)
    ensures
        r@ == spec_pattern(id),
{
    let mut out = String::new();
    proof {
        reveal_strlit("*");
    }
    out.append("*");
    append_decimal(&mut out, id);
    out.append("*");
    assert(out@ =~= spec_pattern(id));
    out
}

impl Topic {
    /// The category of the topic.
    pub fn category(&self) -> (r: Category)
        ensures
            r == self.spec_category(),
    {
        match self {
            Topic::Channel { .. } => Category::Channel,
            Topic::Message { .. } => Category::Message,
            Topic::Guild { .. } => Category::Guild,
            Topic::Member { .. } => Category::Member,
            Topic::Invite { .. } => Category::Invite,
        }
    }

    /// The guild that the topic belongs to.
    pub fn guild_id(&self) -> (r: u128)
        ensures
            r == self.spec_ids().last(),
    {
        match self {
            Topic::Channel { guild_id, .. } => *guild_id,
            Topic::Message { guild_id, .. } => *guild_id,
            Topic::Guild { guild_id } => *guild_id,
            Topic::Member { guild_id } => *guild_id,
            Topic::Invite { guild_id } => *guild_id,
        }
    }

    /// The channel that the topic belongs to, for channel and message topics.
    pub fn channel_id(&self) -> (r: Option<u128>)
        ensures
            r == (if self.spec_ids().len() == 2 {
                Some(self.spec_ids()[0])
            } else {
                None::<u128>
            }),
    {
        match self {
            Topic::Channel { channel_id, .. } => Some(*channel_id),
            Topic::Message { channel_id, .. } => Some(*channel_id),
            _ => None,
        }
    }

    /// The name under which events of this topic are published.
    pub fn name(&self) -> (r: String)
        ensures
            r@ == topic_name(*self),
    {
        let mut out = String::from_str(self.category().prefix_str());
        proof {
            reveal_strlit("_");
        }
        out.append("_");
        match self.channel_id() {
            Some(channel_id) => {
                append_decimal(&mut out, channel_id);
                out.append("_");
                append_decimal(&mut out, self.guild_id());
            },
            None => {
                append_decimal(&mut out, self.guild_id());
            },
        }
        assert(out@ =~= topic_name(*self));
        out
    }
}

/// Parses a topic name delivered by the bus. A name that is not one of the
/// gateway's topics (unknown prefix, wrong number of parts, an identifier
/// that is not a decimal number) gives `None`.
pub fn parse_topic(name: &str) -> (r: Option<Topic>)
    ensures
        r == spec_parse_topic(name@),
{
    let chars = chars_of(name);
    let parts = split_name(&chars);
    proof {
        lemma_split_parts_nonempty(name@);
    }
    let category = match category_from_prefix(&parts[0]) {
        None => return None,
        Some(c) => c,
    };
    let arity = category.arity_count();
    if parts.len() != 1 + arity {
        return None;
    }
    if arity == 2 {
        match (parse_id(&parts[1]), parse_id(&parts[2])) {
            (Some(a), Some(b)) => Some(topic_of(category, a, b)),
            _ => None,
        }
    } else {
        match parse_id(&parts[1]) {
            Some(a) => Some(topic_of(category, a, 0)),
            None => None,
        }
    }
}

} // verus!
