//! The CSV rows the tool writes: the header, one row per user and
//! interaction, their encoding as CSV lines, and the default output file
//! name. Opening and writing the output file is left to the application.

use vstd::prelude::*;
use crate::models::User;
use crate::text::{decimal, seq_join, u64_to_decimal};
use vstd::utf8::encode_utf8;

verus! {

broadcast use vstd::string::group_string_axioms;

/// Whether a field has to be quoted: it holds the delimiter `,`, the quote
/// `"`, or a line break character (`\r`, `\n`).
pub open spec fn needs_quotes(field: Seq<char>) -> bool {
    field.contains(',') || field.contains('"') || field.contains('\r') || field.contains('\n')
}

/// `field` with every `"` written twice.
pub open spec fn double_quotes(field: Seq<char>) -> Seq<char>
    decreases field.len(),
{
    if field.len() == 0 {
        Seq::empty()
    } else if field.last() == '"' {
        double_quotes(field.drop_last()) + seq!['"', '"']
    } else {
        double_quotes(field.drop_last()).push(field.last())
    }
}

/// How one field is written: as is, or between quotes with its own quotes
/// doubled when it needs quoting.
pub open spec fn csv_field(field: Seq<char>) -> Seq<char> {
    if needs_quotes(field) {
        seq!['"'] + double_quotes(field) + seq!['"']
    } else {
        field
    }
}

/// How one record is written: its fields, each written by `csv_field`,
/// separated by `,` and ended by a newline. A record that would otherwise
/// be empty (no fields, or a single empty field) is written as `""`.
pub open spec fn csv_line(fields: Seq<Seq<char>>) -> Seq<char> {
    if fields.len() == 0 || (fields.len() == 1 && fields[0].len() == 0) {
        seq!['"', '"', '\n']
    } else {
        seq_join(fields.map_values(|f: Seq<char>| csv_field(f)), seq![',']).push('\n')
    }
}

/// Every character of a decimal numeral is a digit.
proof fn lemma_decimal_digits(n: nat)
    ensures
        forall|i: int| 0 <= i < decimal(n).len() ==> '0' <= #[trigger] decimal(n)[i] <= '9',
    decreases n,
{
    if n >= 10 {
        lemma_decimal_digits(n / 10);
        assert forall|i: int| 0 <= i < decimal(n).len() implies '0' <= #[trigger] decimal(n)[i]
            <= '9' by {
            if i < decimal(n / 10).len() {
                assert(decimal(n)[i] == decimal(n / 10)[i]);
            }
        }
    }
}

/// A count is written without quotes: its decimal numeral never needs
/// quoting.
pub proof fn lemma_count_written_as_is(n: nat)
    ensures
        csv_field(decimal(n)) == decimal(n),
{
    lemma_decimal_digits(n);
    let d = decimal(n);
    assert(!needs_quotes(d)) by {
        if d.contains(',') {
            let k = choose|k: int| 0 <= k < d.len() && d[k] == ',';
            assert('0' <= d[k] <= '9');
        }
        if d.contains('"') {
            let k = choose|k: int| 0 <= k < d.len() && d[k] == '"';
            assert('0' <= d[k] <= '9');
        }
        if d.contains('\r') {
            let k = choose|k: int| 0 <= k < d.len() && d[k] == '\r';
            assert('0' <= d[k] <= '9');
        }
        if d.contains('\n') {
            let k = choose|k: int| 0 <= k < d.len() && d[k] == '\n';
            assert('0' <= d[k] <= '9');
        }
    }
}

/// A field without the delimiter, quotes or line breaks is written as is.
pub proof fn lemma_plain_field_written_as_is(field: Seq<char>)
    requires
        !needs_quotes(field),
    ensures
        csv_field(field) == field,
{
}

/// Encodes one record as a CSV line with the `csv` crate.
///
/// Trusted: a fresh `csv::Writer` over a `Vec<u8>` with default settings
/// (delimiter `,`, quote `"`, quotes doubled, terminator `\n`, quoting
/// only where necessary) writes the record into memory. Its documentation
/// and source show what `csv_line` states: a field is quoted when it
/// contains the delimiter, the quote or `\r`/`\n`, quotes inside are
/// doubled, and an empty record is written as `""`. They also show that
/// `write_record` fails only on an I/O error of the underlying writer or
/// on a record whose length differs from an earlier record's, and
/// `into_inner` only on an I/O error while flushing; writing to a
/// `Vec<u8>` never fails and a fresh writer has no earlier record, so the
/// result is always present. The bytes are the UTF-8 encoding of the text.
#[verifier::external_body]
fn csv_encode_record(fields: &Vec<String>) -> (out: Option<Vec<u8>>)
    ensures
        out is Some,
        out.unwrap()@ == encode_utf8(csv_line(fields.deep_view())),
{
    let mut writer = csv::Writer::from_writer(Vec::new());
    match writer.write_record(fields) {
        Ok(()) => {},
        Err(_) => return None,
    }
    match writer.into_inner() {
        Ok(bytes) => Some(bytes),
        Err(_) => None,
    }
}

/// The column names, in the order the columns are written.
pub open spec fn header_spec() -> Seq<Seq<char>> {
    seq![
        "username"@,
        "company"@,
        "organizations"@,
        "email"@,
        "location"@,
        "followers_count"@,
        "public_repos_count"@,
        "user_interaction"@,
    ]
}

/// The fields of a user's row: the user's text fields, the two counts in
/// decimal and the interaction, in header order.
pub open spec fn user_record_spec(user: User, user_interaction: Seq<char>) -> Seq<Seq<char>> {
    seq![
        user.username@,
        user.company@,
        user.organizations@,
        user.email@,
        user.location@,
        decimal(user.followers as nat),
        decimal(user.repos as nat),
        user_interaction,
    ]
}

/// Each field of a user's row is the user's own value for the column the
/// header names at the same position.
pub proof fn lemma_user_row_columns(user: User, user_interaction: Seq<char>)
    ensures
        ({
            let row = user_record_spec(user, user_interaction);
            let head = header_spec();
            &&& row.len() == 8 && head.len() == 8
            &&& head[0] == "username"@ && row[0] == user.username@
            &&& head[1] == "company"@ && row[1] == user.company@
            &&& head[2] == "organizations"@ && row[2] == user.organizations@
            &&& head[3] == "email"@ && row[3] == user.email@
            &&& head[4] == "location"@ && row[4] == user.location@
            &&& head[5] == "followers_count"@ && row[5] == decimal(user.followers as nat)
            &&& head[6] == "public_repos_count"@ && row[6] == decimal(user.repos as nat)
            &&& head[7] == "user_interaction"@ && row[7] == user_interaction
        }),
{
}

/// Every user row has exactly as many fields as the header, and its last
/// field is the interaction.
pub proof fn lemma_user_row_matches_header(user: User, user_interaction: Seq<char>)
    ensures
        user_record_spec(user, user_interaction).len() == header_spec().len(),
        header_spec().len() == 8,
        user_record_spec(user, user_interaction).last() == user_interaction,
        header_spec().last() == "user_interaction"@,
{
}

/// The header row's fields.
pub fn header_record() -> (fields: Vec<String>)
    ensures
        fields.deep_view() == header_spec(),
{
    let fields = vec![
        String::from_str("username"),
        String::from_str("company"),
        String::from_str("organizations"),
        String::from_str("email"),
        String::from_str("location"),
        String::from_str("followers_count"),
        String::from_str("public_repos_count"),
        String::from_str("user_interaction"),
    ];
    assert(fields.deep_view() =~= header_spec());
    fields
}

/// The fields of the row written for `user` in the stream `user_interaction`.
pub fn user_record(user: &User, user_interaction: &str) -> (fields: Vec<String>)
    ensures
        fields.deep_view() == user_record_spec(*user, user_interaction@),
        fields@.len() == 8,
        fields@[0]@ == user.username@,
        fields@[1]@ == user.company@,
        fields@[2]@ == user.organizations@,
        fields@[3]@ == user.email@,
        fields@[4]@ == user.location@,
        fields@[5]@ == decimal(user.followers as nat),
        fields@[6]@ == decimal(user.repos as nat),
        fields@[7]@ == user_interaction@,
{
    let fields = vec![
        user.username.clone(),
        user.company.clone(),
        user.organizations.clone(),
        user.email.clone(),
        user.location.clone(),
        u64_to_decimal(user.followers),
        u64_to_decimal(user.repos),
        String::from_str(user_interaction),
    ];
    assert(fields.deep_view() =~= user_record_spec(*user, user_interaction@));
    fields
}

/// The CSV line of the header row.
pub fn header_line() -> (line: Vec<u8>)
    ensures
        line@ == encode_utf8(csv_line(header_spec())),
{
    let fields = header_record();
    match csv_encode_record(&fields) {
        Some(bytes) => bytes,
        None => Vec::new(),
    }
}

/// The CSV line of the row written for `user` in the stream
/// `user_interaction`.
pub fn user_line(user: &User, user_interaction: &str) -> (line: Vec<u8>)
    ensures
        line@ == encode_utf8(csv_line(user_record_spec(*user, user_interaction@))),
{
    let fields = user_record(user, user_interaction);
    match csv_encode_record(&fields) {
        Some(bytes) => bytes,
        None => Vec::new(),
    }
}

/// The default output file name for a repository on a given date:
/// `ghusers_{org}_{repo}_{date}.csv`.
pub open spec fn filename_spec(org: Seq<char>, repo: Seq<char>, date: Seq<char>) -> Seq<char> {
    "ghusers_"@ + org + "_"@ + repo + "_"@ + date + ".csv"@
}

/// A default file name starts with `ghusers_{org}_{repo}_` and ends with
/// `.csv`, whatever the date.
pub proof fn lemma_filename_shape(org: Seq<char>, repo: Seq<char>, date: Seq<char>)
    ensures
        ({
            let name = filename_spec(org, repo, date);
            let head = "ghusers_"@ + org + "_"@ + repo + "_"@;
            &&& name.len() == head.len() + date.len() + 4
            &&& name.take(head.len() as int) == head
            &&& name.skip(name.len() - 4) == ".csv"@
        }),
{
    reveal_strlit(".csv");
    let name = filename_spec(org, repo, date);
    let head = "ghusers_"@ + org + "_"@ + repo + "_"@;
    assert(name == head + date + ".csv"@);
    assert(name.take(head.len() as int) =~= head);
    assert(name.skip(name.len() - 4) =~= ".csv"@);
}

/// The default output file name for `org`/`repo` on the date `date`.
pub fn filename_for_date(org: &str, repo: &str, date: &str) -> (name: String)
    ensures
        name@ == filename_spec(org@, repo@, date@),
{
    let mut name = String::from_str("ghusers_");
    name.append(org);
    name.append("_");
    name.append(repo);
    name.append("_");
    name.append(date);
    name.append(".csv");
    name
}

/// The current local time rendered with the `chrono` format `pattern`
/// (`Local::now().format(pattern)`).
///
/// Trusted: which date comes out depends on the clock and on the
/// machine's time zone, so only its shape is claimed, as chrono documents
/// the pattern: `%Y` is the year zero-padded to at least four digits, with
/// a sign before years outside 1 to 9999 CE; `%m` and `%d` are the month
/// and day zero-padded to two digits. Rendering with a malformed pattern
/// panics, so only the date pattern of file names is admitted.
#[verifier::external_body]
fn local_now_formatted(pattern: &str) -> (date: String)
    requires
        pattern@ == date_pattern(),
    ensures
        is_ymd_date(date@),
{
    chrono::Local::now().format(pattern).to_string()
}

/// Whether a character is an ASCII digit.
pub open spec fn is_digit(c: char) -> bool {
    '0' <= c <= '9'
}

/// Whether `d` is a date written as `YYYY-MM-DD`: a year of at least four
/// digits, possibly after a sign, then `-`, two month digits, `-` and two
/// day digits.
pub open spec fn is_ymd_date(d: Seq<char>) -> bool {
    let n = d.len() as int;
    &&& n >= 10
    &&& d[n - 6] == '-'
    &&& d[n - 3] == '-'
    &&& is_digit(d[n - 5]) && is_digit(d[n - 4]) && is_digit(d[n - 2]) && is_digit(d[n - 1])
    &&& forall|i: int| 0 <= i < n - 6 ==> (#[trigger] is_digit(d[i]) || (i == 0 && (d[i] == '+'
        || d[i] == '-')))
    &&& is_digit(d[n - 7]) && is_digit(d[n - 8]) && is_digit(d[n - 9]) && is_digit(d[n - 10])
}

/// How the date of a default file name is written: `YYYY-MM-DD`.
pub open spec fn date_pattern() -> Seq<char> {
    "%Y-%m-%d"@
}

/// The default output file name for `org`/`repo`, dated today (local
/// time): `ghusers_{org}_{repo}_{YYYY-MM-DD}.csv`.
pub fn default_filename(org: &str, repo: &str) -> (name: String)
    ensures
        exists|date: Seq<char>| is_ymd_date(date) && name@ == filename_spec(org@, repo@, date),
{
    let date = local_now_formatted("%Y-%m-%d");
    filename_for_date(org, repo, date.as_str())
}

} // verus!
