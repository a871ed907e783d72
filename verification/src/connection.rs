//! What is known of a connection once it stands.
use vstd::prelude::*;
use vstd::string::StrSliceExecFns;

verus! {

/// Whether a character is white space: those that Unicode gives the property
/// `White_Space`.
pub open spec fn is_white_space(c: char) -> bool {
    ||| '\u{9}' <= c <= '\u{d}'
    ||| c == '\u{20}'
    ||| c == '\u{85}'
    ||| c == '\u{a0}'
    ||| c == '\u{1680}'
    ||| '\u{2000}' <= c <= '\u{200a}'
    ||| c == '\u{2028}'
    ||| c == '\u{2029}'
    ||| c == '\u{202f}'
    ||| c == '\u{205f}'
    ||| c == '\u{3000}'
}

/// Whether a character is white space.
pub fn white_space(c: char) -> (white: bool)
    ensures
        white == is_white_space(c),
{
    ('\u{9}' <= c && c <= '\u{d}') || c == '\u{20}' || c == '\u{85}' || c == '\u{a0}'
        || c == '\u{1680}' || ('\u{2000}' <= c && c <= '\u{200a}') || c == '\u{2028}'
        || c == '\u{2029}' || c == '\u{202f}' || c == '\u{205f}' || c == '\u{3000}'
}

/// `text` without the white space that it starts with.
pub open spec fn trim_start(text: Seq<char>) -> Seq<char>
    decreases text.len(),
{
    if text.len() > 0 && is_white_space(text[0]) {
        trim_start(text.skip(1))
    } else {
        text
    }
}

/// `text` without the white space that it ends with.
pub open spec fn trim_end(text: Seq<char>) -> Seq<char>
    decreases text.len(),
{
    if text.len() > 0 && is_white_space(text.last()) {
        trim_end(text.drop_last())
    } else {
        text
    }
}

/// `text` without the white space around it.
pub open spec fn trim(text: Seq<char>) -> Seq<char> {
    trim_end(trim_start(text))
}

/// The account that one entry of a list names: none where it is blank.
pub open spec fn entry(text: Seq<char>) -> Seq<Seq<char>> {
    if trim(text).len() == 0 {
        Seq::empty()
    } else {
        seq![trim(text)]
    }
}

/// How many characters a list has before its first comma.
pub open spec fn before_comma(list: Seq<char>) -> int
    decreases list.len(),
{
    if list.len() == 0 || list[0] == ',' {
        0
    } else {
        1 + before_comma(list.skip(1))
    }
}

/// The accounts that a comma-separated list names, in order: its entries
/// without surrounding blanks, and without those that are then empty.
pub open spec fn accounts(list: Seq<char>) -> Seq<Seq<char>>
    decreases list.len(),
{
    let n = before_comma(list);
    if 0 <= n < list.len() {
        entry(list.take(n)) + accounts(list.skip(n + 1))
    } else {
        entry(list)
    }
}

/// The characters of `text`, one by one.
fn characters(text: &str) -> (characters: Vec<char>)
    ensures
        characters@ == text@,
{
    let mut characters: Vec<char> = Vec::new();
    for c in it: text.chars()
        invariant
            it.seq() == text@,
            characters@ == text@.take(it.index()),
    {
        characters.push(c);
    }
    assert(text@.take(text@.len() as int) == text@);
    characters
}

/// Where the entry between `from` and `to` begins and ends once it is
/// trimmed.
fn trimmed_bounds(characters: &Vec<char>, from: usize, to: usize) -> (bounds: (usize, usize))
    requires
        from <= to <= characters@.len(),
    ensures
        from <= bounds.0 <= bounds.1 <= to,
        characters@.subrange(bounds.0 as int, bounds.1 as int) == trim(
            characters@.subrange(from as int, to as int),
        ),
{
    let ghost whole = characters@.subrange(from as int, to as int);
    let mut start: usize = from;
    while start < to && white_space(characters[start])
        invariant
            from <= start <= to <= characters@.len(),
            trim_start(characters@.subrange(start as int, to as int)) == trim_start(whole),
        decreases to - start,
    {
        assert(characters@.subrange(start as int, to as int).skip(1) == characters@.subrange(
            start + 1,
            to as int,
        ));
        start += 1;
    }
    let mut end: usize = to;
    assert(characters@.subrange(start as int, end as int) == trim_start(whole));
    while start < end && white_space(characters[end - 1])
        invariant
            start <= end <= to <= characters@.len(),
            trim_end(characters@.subrange(start as int, end as int)) == trim(whole),
        decreases end,
    {
        assert(characters@.subrange(start as int, end as int).drop_last() == characters@.subrange(
            start as int,
            end - 1,
        ));
        end -= 1;
    }
    (start, end)
}

/// The accounts of a `managedAccounts` message: its comma-separated list,
/// without empty entries or surrounding blanks.
pub fn split_accounts(list: &str) -> (found: Vec<String>)
    ensures
        found@.map_values(|account: String| account@) == accounts(list@),
{
    let characters: Vec<char> = characters(list);
    let mut found: Vec<String> = Vec::new();
    let mut start: usize = 0;
    let ghost view = |account: String| account@;
    assert(list@.skip(0) == list@);
    assert(found@.map_values(view) + accounts(list@) == accounts(list@));
    loop
        invariant_except_break
            found@.map_values(view) + accounts(list@.skip(start as int)) == accounts(list@),
        invariant
            characters@ == list@,
            start <= list@.len(),
            view == (|account: String| account@),
        ensures
            found@.map_values(view) == accounts(list@),
        decreases list@.len() - start,
    {
        let ghost rest = list@.skip(start as int);
        let mut end: usize = start;
        while end < characters.len() && characters[end] != ','
            invariant
                characters@ == list@,
                start <= end <= list@.len(),
                rest == list@.skip(start as int),
                before_comma(rest) == end - start + before_comma(list@.skip(end as int)),
            decreases list@.len() - end,
        {
            assert(list@.skip(end as int).skip(1) == list@.skip(end + 1));
            end += 1;
        }
        let (from, to): (usize, usize) = trimmed_bounds(&characters, start, end);
        let ghost before = found@;
        let ghost text = list@.subrange(start as int, end as int);
        if from < to {
            let account: String = list.substring_char(from, to).to_owned();
            found.push(account);
            assert(found@.map_values(view) == before.map_values(view).push(account@));
        }
        assert(found@.map_values(view) == before.map_values(view) + entry(text));
        assert(before_comma(rest) == end - start);
        if end == characters.len() {
            assert(text == rest);
            break;
        }
        assert(text == rest.take(end - start));
        assert(rest.skip(end - start + 1) == list@.skip(end + 1));
        start = end + 1;
    }
    found
}

/// What comes before the first comma has none, and what follows the list does
/// not move it.
proof fn the_first_comma_stays_first(list: Seq<char>, more: Seq<char>)
    ensures
        0 <= before_comma(list) <= list.len(),
        forall|i: int| 0 <= i < before_comma(list) ==> #[trigger] list[i] != ',',
        before_comma(list) < list.len() ==> before_comma(list + more) == before_comma(list),
        before_comma(list) == list.len() ==> before_comma(list + seq![','] + more) == list.len(),
    decreases list.len(),
{
    let ghost tail = list + seq![','] + more;
    if list.len() > 0 && list[0] != ',' {
        let rest = list.skip(1);
        the_first_comma_stays_first(rest, more);
        assert((list + more).skip(1) == rest + more);
        assert(tail.skip(1) == rest + seq![','] + more);
        assert forall|i: int| 0 <= i < before_comma(list) implies #[trigger] list[i] != ',' by {
            if i > 0 {
                assert(rest[i - 1] == list[i]);
            }
        }
    }
}

/// Two lists joined with a comma name the accounts of the first and then
/// those of the second: the order is kept.
pub proof fn joined_lists_keep_the_order(one: Seq<char>, other: Seq<char>)
    ensures
        accounts(one + seq![','] + other) == accounts(one) + accounts(other),
    decreases one.len(),
{
    let list = one + seq![','] + other;
    let n = before_comma(one);
    the_first_comma_stays_first(one, seq![','] + other);
    the_first_comma_stays_first(one, other);
    assert(list == one + (seq![','] + other));
    if n < one.len() {
        let rest = one.skip(n + 1);
        joined_lists_keep_the_order(rest, other);
        assert(list.take(n) == one.take(n));
        assert(list.skip(n + 1) == rest + seq![','] + other);
        assert(accounts(list) == accounts(one) + accounts(other));
    } else {
        assert(list.take(n) == one);
        assert(list.skip(n + 1) == other);
    }
}

/// What trimming leaves is part of the text, and neither starts nor ends with
/// white space.
proof fn trimming_leaves_no_blanks(text: Seq<char>)
    ensures
        trim(text).len() > 0 ==> !is_white_space(trim(text)[0]) && !is_white_space(
            trim(text).last(),
        ),
        forall|c: char| #[trigger] trim(text).contains(c) ==> text.contains(c),
{
    trimming_the_start(text);
    trimming_the_end(trim_start(text));
}

proof fn trimming_the_start(text: Seq<char>)
    ensures
        trim_start(text).len() > 0 ==> !is_white_space(trim_start(text)[0]),
        forall|c: char| #[trigger] trim_start(text).contains(c) ==> text.contains(c),
    decreases text.len(),
{
    if text.len() > 0 && is_white_space(text[0]) {
        let rest = text.skip(1);
        trimming_the_start(rest);
        assert forall|c: char| #[trigger] trim_start(text).contains(c) implies text.contains(c) by {
            assert(rest.contains(c));
            let i = choose|i: int| 0 <= i < rest.len() && rest[i] == c;
            assert(text[i + 1] == c);
        }
    }
}

proof fn trimming_the_end(text: Seq<char>)
    ensures
        trim_end(text).len() > 0 ==> !is_white_space(trim_end(text).last()) && trim_end(text)[0]
            == text[0],
        forall|c: char| #[trigger] trim_end(text).contains(c) ==> text.contains(c),
    decreases text.len(),
{
    if text.len() > 0 && is_white_space(text.last()) {
        let rest = text.drop_last();
        trimming_the_end(rest);
        assert forall|c: char| #[trigger] trim_end(text).contains(c) implies text.contains(c) by {
            assert(rest.contains(c));
            let i = choose|i: int| 0 <= i < rest.len() && rest[i] == c;
            assert(text[i] == c);
        }
    }
}

/// Taking white space off the start takes off exactly that: what is left
/// begins at the first character that is not white space.
proof fn what_the_start_loses(text: Seq<char>, from: int)
    requires
        0 <= from <= text.len(),
        forall|i: int| 0 <= i < from ==> is_white_space(#[trigger] text[i]),
        from < text.len() ==> !is_white_space(text[from]),
    ensures
        trim_start(text) == text.skip(from),
    decreases from,
{
    if from == 0 {
        assert(text.skip(0) == text);
    } else {
        let rest = text.skip(1);
        assert(is_white_space(text[0]));
        assert forall|i: int| 0 <= i < from - 1 implies is_white_space(#[trigger] rest[i]) by {
            assert(rest[i] == text[i + 1]);
        }
        what_the_start_loses(rest, from - 1);
        assert(rest.skip(from - 1) == text.skip(from));
    }
}

/// Taking white space off the end takes off exactly that.
proof fn what_the_end_loses(text: Seq<char>, to: int)
    requires
        0 <= to <= text.len(),
        forall|i: int| to <= i < text.len() ==> is_white_space(#[trigger] text[i]),
        to > 0 ==> !is_white_space(text[to - 1]),
    ensures
        trim_end(text) == text.take(to),
    decreases text.len(),
{
    if to == text.len() {
        assert(text.take(to) == text);
    } else {
        let rest = text.drop_last();
        assert(is_white_space(text[text.len() - 1]));
        what_the_end_loses(rest, to);
        assert(rest.take(to) == text.take(to));
    }
}

/// A list without commas has no first one.
proof fn without_commas_all_comes_before(list: Seq<char>)
    requires
        !list.contains(','),
    ensures
        before_comma(list) == list.len(),
    decreases list.len(),
{
    if list.len() > 0 {
        assert(list.contains(list[0]));
        assert(!list.skip(1).contains(',')) by {
            if list.skip(1).contains(',') {
                let i = choose|i: int| 0 <= i < list.skip(1).len() && list.skip(1)[i] == ',';
                assert(list[i + 1] == ',');
            }
        }
        without_commas_all_comes_before(list.skip(1));
    }
}

/// No account is lost, and none is made up. A text without commas that holds
/// anything but white space names one account: all of it from its first
/// character that is not white space, at `from`, to its last one, just before
/// `to`.
pub proof fn an_entry_is_its_own_account(text: Seq<char>, from: int, to: int)
    requires
        !text.contains(','),
        0 <= from < to <= text.len(),
        forall|i: int| 0 <= i < from ==> is_white_space(#[trigger] text[i]),
        !is_white_space(text[from]),
        !is_white_space(text[to - 1]),
        forall|i: int| to <= i < text.len() ==> is_white_space(#[trigger] text[i]),
    ensures
        accounts(text) == seq![text.subrange(from, to)],
{
    without_commas_all_comes_before(text);
    what_the_start_loses(text, from);
    let rest = text.skip(from);
    assert forall|i: int| to - from <= i < rest.len() implies is_white_space(#[trigger] rest[i]) by {
        assert(rest[i] == text[i + from]);
    }
    assert(rest[to - from - 1] == text[to - 1]);
    what_the_end_loses(rest, to - from);
    assert(rest.take(to - from) == text.subrange(from, to));
}

/// A text without commas and without white space at its ends is its own only
/// account.
pub proof fn a_clean_text_is_its_own_account(text: Seq<char>)
    requires
        !text.contains(','),
        text.len() > 0,
        !is_white_space(text[0]),
        !is_white_space(text.last()),
    ensures
        accounts(text) == seq![text],
{
    an_entry_is_its_own_account(text, 0, text.len() as int);
    assert(text.subrange(0, text.len() as int) == text);
}

/// A blank text names no account.
pub proof fn a_blank_names_no_account(text: Seq<char>)
    requires
        forall|i: int| 0 <= i < text.len() ==> is_white_space(#[trigger] text[i]),
    ensures
        accounts(text) == Seq::<Seq<char>>::empty(),
{
    assert(!text.contains(',')) by {
        if text.contains(',') {
            let i = choose|i: int| 0 <= i < text.len() && text[i] == ',';
            assert(is_white_space(text[i]));
        }
    }
    without_commas_all_comes_before(text);
    what_the_start_loses(text, text.len() as int);
    assert(trim(text).len() == 0);
}

/// A list of entries, joined with commas.
pub open spec fn joined_with_commas(entries: Seq<Seq<char>>) -> Seq<char>
    decreases entries.len(),
{
    if entries.len() == 0 {
        Seq::empty()
    } else if entries.len() == 1 {
        entries[0]
    } else {
        joined_with_commas(entries.drop_last()) + seq![','] + entries.last()
    }
}

/// Accounts that are joined with commas are read back, all of them, each as it
/// was, in order.
pub proof fn joined_accounts_are_read_back(entries: Seq<Seq<char>>)
    requires
        forall|i: int|
            0 <= i < entries.len() ==> {
                let account = #[trigger] entries[i];
                &&& account.len() > 0
                &&& !account.contains(',')
                &&& !is_white_space(account[0])
                &&& !is_white_space(account.last())
            },
    ensures
        accounts(joined_with_commas(entries)) == entries,
    decreases entries.len(),
{
    if entries.len() == 0 {
        a_blank_names_no_account(joined_with_commas(entries));
    } else {
        let last = entries.last();
        assert(last == entries[entries.len() - 1]);
        a_clean_text_is_its_own_account(last);
        if entries.len() == 1 {
            assert(entries =~= seq![last]);
        } else {
            let before = entries.drop_last();
            joined_accounts_are_read_back(before);
            joined_lists_keep_the_order(joined_with_commas(before), last);
            assert(before + seq![last] =~= entries);
        }
    }
}

/// White space is what Unicode says: the six controls, the spaces and the
/// separators, by their code points, and nothing else.
pub proof fn white_space_is_what_unicode_says(c: char)
    ensures
        is_white_space(c) <==> {
            let point = c as u32;
            ||| 9 <= point <= 13
            ||| point == 32
            ||| point == 133
            ||| point == 160
            ||| point == 5760
            ||| 8192 <= point <= 8202
            ||| 8232 <= point <= 8233
            ||| point == 8239
            ||| point == 8287
            ||| point == 12288
        },
{
}

/// No account of a list is empty, is surrounded by blanks or holds a comma.
pub proof fn every_account_is_clean(list: Seq<char>, i: int)
    requires
        0 <= i < accounts(list).len(),
    ensures
        accounts(list)[i].len() > 0,
        !is_white_space(accounts(list)[i][0]),
        !is_white_space(accounts(list)[i].last()),
        !accounts(list)[i].contains(','),
    decreases list.len(),
{
    let n = before_comma(list);
    the_first_comma_stays_first(list, Seq::empty());
    let first = list.take(n);
    trimming_leaves_no_blanks(first);
    assert(!first.contains(','));
    assert(!trim(first).contains(','));
    if n < list.len() {
        let head = entry(first);
        if i >= head.len() {
            every_account_is_clean(list.skip(n + 1), i - head.len());
            assert(accounts(list)[i] == accounts(list.skip(n + 1))[i - head.len()]);
        }
    } else {
        assert(first == list);
    }
}

/// `time::OffsetDateTime`, which a connection's metadata carries unread.
#[verifier::external_type_specification]
#[verifier::external_body]
pub struct ExOffsetDateTime(time::OffsetDateTime);

/// `time_tz::Tz`, which a connection's metadata carries unread.
#[verifier::external_type_specification]
#[verifier::external_body]
pub struct ExTz(time_tz::Tz);

/// Metadata about the connection to TWS.
#[derive(Clone, Debug)]
pub struct ConnectionMetadata {
    /// Next order ID to use for placing orders.
    pub next_order_id: i32,
    /// Client ID for this connection.
    pub client_id: i32,
    /// Server version (TWS version).
    pub server_version: i32,
    /// Comma-separated list of managed accounts.
    pub managed_accounts: String,
    /// Connection time.
    pub connection_time: Option<time::OffsetDateTime>,
    /// Server time zone.
    pub time_zone: Option<&'static time_tz::Tz>,
}

impl Default for ConnectionMetadata {
    /// Metadata of a connection of which nothing is known yet.
    fn default() -> (metadata: ConnectionMetadata)
        ensures
            metadata.next_order_id == 0,
            metadata.client_id == 0,
            metadata.server_version == 0,
            metadata.managed_accounts@ == Seq::<char>::empty(),
            metadata.connection_time is None,
            metadata.time_zone is None,
    {
        ConnectionMetadata {
            next_order_id: 0,
            client_id: 0,
            server_version: 0,
            managed_accounts: String::new(),
            connection_time: None,
            time_zone: None,
        }
    }
}

/// Whatever [`split_accounts`] returns for accounts that are joined with
/// commas are those accounts, all of them, each as it was, in order.
pub proof fn split_accounts_returns_what_was_joined(
    list: &str,
    entries: Seq<Seq<char>>,
    found: Vec<String>,
)
    requires
        call_ensures(split_accounts, (list,), found),
        list@ == joined_with_commas(entries),
        forall|i: int|
            0 <= i < entries.len() ==> {
                let account = #[trigger] entries[i];
                &&& account.len() > 0
                &&& !account.contains(',')
                &&& !is_white_space(account[0])
                &&& !is_white_space(account.last())
            },
    ensures
        found@.len() == entries.len(),
        forall|i: int| 0 <= i < entries.len() ==> (#[trigger] found@[i])@ == entries[i],
{
    joined_accounts_are_read_back(entries);
    let names = found@.map_values(|account: String| account@);
    assert(names == entries);
    assert forall|i: int| 0 <= i < entries.len() implies (#[trigger] found@[i])@ == entries[i] by {
        assert(names[i] == found@[i]@);
    }
}

/// Whatever [`split_accounts`] returns for a list that is one entry is that
/// entry without the white space around it, or nothing where it is blank.
pub proof fn split_accounts_trims_one_entry(list: &str, from: int, to: int, found: Vec<String>)
    requires
        call_ensures(split_accounts, (list,), found),
        !list@.contains(','),
        0 <= from <= to <= list@.len(),
        forall|i: int| 0 <= i < from ==> is_white_space(#[trigger] list@[i]),
        forall|i: int| to <= i < list@.len() ==> is_white_space(#[trigger] list@[i]),
        from < to ==> !is_white_space(list@[from]) && !is_white_space(list@[to - 1]),
    ensures
        from < to ==> found@.len() == 1 && found@[0]@ == list@.subrange(from, to),
        from == to ==> found@.len() == 0,
{
    let names = found@.map_values(|account: String| account@);
    if from < to {
        an_entry_is_its_own_account(list@, from, to);
        assert(names[0] == found@[0]@);
    } else {
        assert forall|i: int| 0 <= i < list@.len() implies is_white_space(#[trigger] list@[i]) by {}
        a_blank_names_no_account(list@);
        assert(names.len() == 0);
    }
}

/// Whatever [`split_accounts`] returns for two lists that are joined with a
/// comma is what it returns for the first, and then what it returns for the
/// second.
pub proof fn split_accounts_takes_joined_lists_in_order(
    list: &str,
    one: &str,
    other: &str,
    found: Vec<String>,
    first: Vec<String>,
    second: Vec<String>,
)
    requires
        list@ == one@ + seq![','] + other@,
        call_ensures(split_accounts, (list,), found),
        call_ensures(split_accounts, (one,), first),
        call_ensures(split_accounts, (other,), second),
    ensures
        found@.len() == first@.len() + second@.len(),
        forall|i: int| 0 <= i < first@.len() ==> (#[trigger] found@[i])@ == first@[i]@,
        forall|i: int|
            0 <= i < second@.len() ==> (#[trigger] second@[i])@ == found@[first@.len() + i]@,
{
    joined_lists_keep_the_order(one@, other@);
    let view = |account: String| account@;
    let names = found@.map_values(view);
    assert(names == first@.map_values(view) + second@.map_values(view));
    assert forall|i: int| 0 <= i < first@.len() implies (#[trigger] found@[i])@ == first@[i]@ by {
        assert(names[i] == first@.map_values(view)[i]);
    }
    assert forall|i: int| 0 <= i < second@.len() implies (#[trigger] second@[i])@ == found@[
        first@.len() + i
    ]@ by {
        assert(names[first@.len() + i] == second@.map_values(view)[i]);
    }
}

/// Whatever [`white_space`] returns is what Unicode says of the character.
pub proof fn white_space_returns_what_unicode_says(c: char, white: bool)
    requires
        call_ensures(white_space, (c,), white),
    ensures
        white <==> {
            let point = c as u32;
            ||| 9 <= point <= 13
            ||| point == 32
            ||| point == 133
            ||| point == 160
            ||| point == 5760
            ||| 8192 <= point <= 8202
            ||| 8232 <= point <= 8233
            ||| point == 8239
            ||| point == 8287
            ||| point == 12288
        },
{
    white_space_is_what_unicode_says(c);
}

/// Whatever the default metadata is, it knows nothing: every number is zero,
/// and there is no account, time or zone.
pub proof fn nothing_is_known_of_a_new_connection(metadata: ConnectionMetadata)
    requires
        call_ensures(ConnectionMetadata::default, (), metadata),
    ensures
        metadata.next_order_id == 0,
        metadata.client_id == 0,
        metadata.server_version == 0,
        metadata.managed_accounts@.len() == 0,
        metadata.connection_time is None,
        metadata.time_zone is None,
        accounts(metadata.managed_accounts@).len() == 0,
{
    a_blank_names_no_account(metadata.managed_accounts@);
}

} // verus!
