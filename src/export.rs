use vstd::prelude::*;
use vstd::string::StringExecFns;
use crate::results::{SearchResult, results_view};
use crate::dorks::utf8_bytes;

verus! {

/// The header row of every exported table.
pub open spec fn header_row() -> Seq<Seq<char>> {
    seq!["Title"@, "Link"@]
}

/// The exported table: the header row, then one row of title and link per
/// result, in the results' order.
pub open spec fn table_of(results: Seq<(Seq<char>, Seq<char>)>) -> Seq<Seq<Seq<char>>> {
    seq![header_row()] + results.map_values(|r: (Seq<char>, Seq<char>)| seq![r.0, r.1])
}

/// A field must be quoted when it holds a comma, a quote or a line break.
pub open spec fn needs_quotes(f: Seq<char>) -> bool {
    exists|i: int| 0 <= i < f.len() && (f[i] == ',' || f[i] == '"' || f[i] == '\r' || f[i] == '\n')
}

/// The field with each quote doubled.
pub open spec fn double_quotes(f: Seq<char>) -> Seq<char>
    decreases f.len(),
{
    if f.len() == 0 {
        Seq::empty()
    } else {
        double_quotes(f.drop_last()) + if f.last() == '"' {
            seq!['"', '"']
        } else {
            seq![f.last()]
        }
    }
}

/// A field as it is written: quoted, with quotes doubled, where needed.
pub open spec fn csv_field(f: Seq<char>) -> Seq<char> {
    if needs_quotes(f) {
        seq!['"'] + double_quotes(f) + seq!['"']
    } else {
        f
    }
}

/// The written fields of a record, separated by commas.
pub open spec fn csv_fields(fs: Seq<Seq<char>>) -> Seq<char>
    decreases fs.len(),
{
    if fs.len() == 0 {
        Seq::empty()
    } else if fs.len() == 1 {
        csv_field(fs[0])
    } else {
        csv_fields(fs.drop_last()) + seq![','] + csv_field(fs.last())
    }
}

/// One record as csv's writer with its default settings writes it: the
/// fields, then a line end; a record that would otherwise be blank (a single
/// empty field) is written as `""`.
pub open spec fn csv_line(fs: Seq<Seq<char>>) -> Seq<char> {
    (if csv_fields(fs).len() == 0 {
        seq!['"', '"']
    } else {
        csv_fields(fs)
    }) + seq!['\n']
}

/// The UTF-8 encoding of a text.
pub open spec fn utf8_encode(s: Seq<char>) -> Seq<u8>
    decreases s.len(),
{
    if s.len() == 0 {
        Seq::empty()
    } else {
        utf8_encode(s.drop_last()) + utf8_bytes(s.last())
    }
}

/// The bytes of one record as csv's writer writes it.
pub open spec fn csv_record(fields: Seq<Seq<char>>) -> Seq<u8> {
    utf8_encode(csv_line(fields))
}

/// The concatenation of byte strings, in order.
pub open spec fn concat_bytes(parts: Seq<Seq<u8>>) -> Seq<u8>
    decreases parts.len(),
{
    if parts.len() == 0 {
        Seq::empty()
    } else {
        concat_bytes(parts.drop_last()) + parts.last()
    }
}

/// A delimited file holding the given rows, one record each, in order.
pub open spec fn delimited(rows: Seq<Seq<Seq<char>>>) -> Seq<u8> {
    concat_bytes(rows.map_values(|f: Seq<Seq<char>>| csv_record(f)))
}

/// Characters that may stay in a sanitized file name: none that file systems
/// reserve, and no control character.
pub open spec fn file_name_char(c: char) -> bool {
    &&& c != '/' && c != '?' && c != '<' && c != '>' && c != '\\'
    &&& c != ':' && c != '*' && c != '|' && c != '"'
    &&& !((c as u32) < 0x20)
    &&& !(0x80 <= (c as u32) && (c as u32) <= 0x9f)
}

pub open spec fn file_name_safe(s: Seq<char>) -> bool {
    forall|i: int| 0 <= i < s.len() ==> file_name_char(#[trigger] s[i])
}

/// `t` is what remains of `s` once some of its characters are deleted.
pub open spec fn deletes_only(s: Seq<char>, t: Seq<char>) -> bool {
    exists|idx: Seq<int>|
        idx.len() == t.len() && (forall|i: int, j: int|
            0 <= i < j < idx.len() ==> #[trigger] idx[i] < #[trigger] idx[j]) && (forall|i: int|
            0 <= i < idx.len() ==> 0 <= #[trigger] idx[i] < s.len() && t[i] == s[idx[i]])
}

/// ASCII letters and digits, `-` and `_`.
pub open spec fn plain_name_char(c: char) -> bool {
    ('a' <= c && c <= 'z') || ('A' <= c && c <= 'Z') || ('0' <= c && c <= '9') || c == '-' || c
        == '_'
}

/// `c` is the lower-case ASCII letter `l` in either case.
pub open spec fn letter_ci(c: char, l: char) -> bool {
    c == l || (c as u32) + 32 == (l as u32)
}

pub open spec fn word3_ci(s: Seq<char>, a: char, b: char, c: char) -> bool {
    letter_ci(s[0], a) && letter_ci(s[1], b) && letter_ci(s[2], c)
}

/// Device names that Windows reserves: con, prn, aux, nul, com0-9 and lpt0-9,
/// in any case.
pub open spec fn windows_device_name(s: Seq<char>) -> bool {
    ||| s.len() == 3 && (word3_ci(s, 'c', 'o', 'n') || word3_ci(s, 'p', 'r', 'n') || word3_ci(
        s,
        'a',
        'u',
        'x',
    ) || word3_ci(s, 'n', 'u', 'l'))
    ||| s.len() == 4 && (word3_ci(s, 'c', 'o', 'm') || word3_ci(s, 'l', 'p', 't')) && '0' <= s[3]
        && s[3] <= '9'
}

/// A name that sanitizing leaves as it is on every platform: 1 to 255 plain
/// characters, and no Windows device name.
pub open spec fn plain_name(s: Seq<char>) -> bool {
    &&& 1 <= s.len() <= 255
    &&& forall|i: int| 0 <= i < s.len() ==> plain_name_char(#[trigger] s[i])
    &&& !windows_device_name(s)
}

/// What holds of a file-name stem sanitized from `name` on any platform.
pub open spec fn sanitized_from(name: Seq<char>, stem: Seq<char>) -> bool {
    &&& file_name_safe(stem)
    &&& deletes_only(name, stem)
    &&& plain_name(name) ==> stem == name
}

/// Relies on csv's `Writer::from_writer`, `Writer::write_record` and
/// `Writer::into_inner`, writing one record into memory with a fresh writer
/// with default settings (comma, `"` doubled, `\n`, quoting where necessary):
/// it never fails (writes to a `Vec` cannot fail, and a fresh writer's first
/// record sets the field count). The bytes that need quoting are ASCII, so
/// testing characters tests the UTF-8 bytes.
#[verifier::external_body]
fn encode_record(fields: &Vec<String>) -> (r: Option<Vec<u8>>)
    ensures
        r is Some,
        r matches Some(b) ==> b@ == csv_record(fields.deep_view()),
{
    let mut w = csv::Writer::from_writer(Vec::new());
    w.write_record(fields).ok()?;
    w.into_inner().ok()
}

/// Relies on `sanitize_filename::sanitize`: its regex replacements with the
/// empty text and its truncation to 255 bytes only delete characters (what
/// they delete depends on the platform); none of the characters it keeps is
/// reserved in file names or a control character; and a plain name matches
/// none of its patterns.
#[verifier::external_body]
fn sanitize(name: &str) -> (r: String)
    ensures
        sanitized_from(name@, r@),
{
    sanitize_filename::sanitize(name)
}

/// Builds the exported table for a sequence of results.
pub fn table_rows(results: &Vec<SearchResult>) -> (r: Vec<Vec<String>>)
    ensures
        r.deep_view() == table_of(results_view(results@)),
{
    let ghost rv = results_view(results@);
    let mut rows: Vec<Vec<String>> = Vec::new();
    let mut header: Vec<String> = Vec::new();
    header.push(String::from_str("Title"));
    header.push(String::from_str("Link"));
    assert(header.deep_view() =~= header_row());
    rows.push(header);
    assert(rv.subrange(0, 0).map_values(|r: (Seq<char>, Seq<char>)| seq![r.0, r.1]) =~= Seq::<
        Seq<Seq<char>>,
    >::empty());
    assert(rows.deep_view() =~= table_of(rv.subrange(0, 0)));
    let mut i: usize = 0;
    while i < results.len()
        invariant
            0 <= i <= results@.len(),
            rv == results_view(results@),
            rows.deep_view() == table_of(rv.subrange(0, i as int)),
        decreases results@.len() - i,
    {
        let mut row: Vec<String> = Vec::new();
        row.push(results[i].title.clone());
        row.push(results[i].link.clone());
        let ghost before = rows.deep_view();
        rows.push(row);
        i = i + 1;
        assert(row.deep_view() =~= seq![rv[i - 1].0, rv[i - 1].1]);
        assert(rows.deep_view() =~= before.push(row.deep_view()));
        assert(table_of(rv.subrange(0, i as int)) =~= table_of(rv.subrange(0, i - 1)).push(
            seq![rv[i - 1].0, rv[i - 1].1],
        ));
    }
    assert(rv.subrange(0, results@.len() as int) =~= rv);
    rows
}

/// Joins encoded records into one file, in order.
pub fn join_records(records: &Vec<Vec<u8>>) -> (r: Vec<u8>)
    ensures
        r@ == concat_bytes(records.deep_view()),
{
    let mut out: Vec<u8> = Vec::new();
    let mut i: usize = 0;
    while i < records.len()
        invariant
            0 <= i <= records@.len(),
            out@ == concat_bytes(records.deep_view().subrange(0, i as int)),
        decreases records@.len() - i,
    {
        let mut part = records[i].clone();
        out.append(&mut part);
        i = i + 1;
        assert(records.deep_view().subrange(0, i as int).drop_last() =~= records.deep_view().subrange(
            0,
            i - 1,
        ));
    }
    assert(records.deep_view().subrange(0, records@.len() as int) =~= records.deep_view());
    out
}

/// Encodes rows as a delimited (CSV) file, one record per row in order.
pub fn encode_table(rows: &Vec<Vec<String>>) -> (r: Vec<u8>)
    ensures
        r@ == delimited(rows.deep_view()),
{
    let mut records: Vec<Vec<u8>> = Vec::new();
    let mut i: usize = 0;
    while i < rows.len()
        invariant
            0 <= i <= rows@.len(),
            records.deep_view() =~= rows.deep_view().subrange(0, i as int).map_values(
                |f: Seq<Seq<char>>| csv_record(f),
            ),
        decreases rows@.len() - i,
    {
        match encode_record(&rows[i]) {
            Some(b) => {
                let ghost before = records.deep_view();
                assert(rows.deep_view()[i as int] == rows@[i as int].deep_view());
                assert(b.deep_view() =~= b@);
                records.push(b);
                assert(records.deep_view() =~= before.push(csv_record(rows.deep_view()[i as int])));
            },
            None => {
                return Vec::new();
            },
        }
        i = i + 1;
        assert(rows.deep_view().subrange(0, i as int).map_values(|f: Seq<Seq<char>>| csv_record(f))
            =~= rows.deep_view().subrange(0, i - 1).map_values(|f: Seq<Seq<char>>| csv_record(f)).push(
            csv_record(rows.deep_view()[i - 1]),
        ));
    }
    assert(rows.deep_view().subrange(0, rows@.len() as int) =~= rows.deep_view());
    join_records(&records)
}

/// The two files that the results of one dork go to.
#[derive(Debug, Clone, PartialEq, Eq)]
pub struct ExportJob {
    /// The delimited file: `<stem>_results.csv`.
    pub csv_name: String,
    /// The spreadsheet: `<stem>_results.xlsx`.
    pub xlsx_name: String,
    /// The table to write to both: header first, then one row per result.
    pub rows: Vec<Vec<String>>,
}

/// The export of `results` under the file-name stem `stem`.
pub fn export_job_for_stem(stem: &str, results: &Vec<SearchResult>) -> (r: ExportJob)
    ensures
        r.csv_name@ == stem@ + "_results.csv"@,
        r.xlsx_name@ == stem@ + "_results.xlsx"@,
        r.rows.deep_view() == table_of(results_view(results@)),
{
    ExportJob {
        csv_name: String::from_str(stem).concat("_results.csv"),
        xlsx_name: String::from_str(stem).concat("_results.xlsx"),
        rows: table_rows(results),
    }
}

/// The export of the results of `dork`, under a file-name stem made safe from
/// the dork's text. Every dork gets its export, also one without results: its
/// table then holds the header row alone.
pub fn export_job(dork: &str, results: &Vec<SearchResult>) -> (r: ExportJob)
    ensures
        exists|stem: Seq<char>|
            sanitized_from(dork@, stem) && r.csv_name@ == stem + "_results.csv"@ && r.xlsx_name@
                == stem + "_results.xlsx"@,
        plain_name(dork@) ==> r.csv_name@ == dork@ + "_results.csv"@ && r.xlsx_name@ == dork@
            + "_results.xlsx"@,
        r.rows.deep_view() == table_of(results_view(results@)),
{
    let stem = sanitize(dork);
    export_job_for_stem(stem.as_str(), results)
}

/// The exported table has one row more than there are results: the header
/// `Title`, `Link` first, then each result's title and link in order.
pub proof fn lemma_table_shape(results: Seq<(Seq<char>, Seq<char>)>)
    ensures
        table_of(results).len() == results.len() + 1,
        table_of(results)[0] == header_row(),
        forall|i: int|
            0 <= i < results.len() ==> #[trigger] table_of(results)[i + 1] == seq![
                results[i].0,
                results[i].1,
            ],
{
}

/// An export without results is the header line alone: the bytes of
/// `Title,Link` and a line end.
pub proof fn lemma_empty_export_is_header()
    ensures
        delimited(table_of(Seq::empty())) == seq![
            84u8,
            105u8,
            116u8,
            108u8,
            101u8,
            44u8,
            76u8,
            105u8,
            110u8,
            107u8,
            10u8,
        ],
{
    reveal_strlit("Title");
    reveal_strlit("Link");
    let rows = table_of(Seq::empty());
    assert(rows =~= seq![header_row()]);
    let t = "Title"@;
    let l = "Link"@;
    assert(t =~= seq!['T', 'i', 't', 'l', 'e']);
    assert(l =~= seq!['L', 'i', 'n', 'k']);
    assert(!needs_quotes(t));
    assert(!needs_quotes(l));
    assert(header_row().drop_last() =~= seq![t]);
    assert(csv_fields(seq![t]) == t);
    assert(csv_fields(header_row()) == t + seq![','] + l);
    let line = t + seq![','] + l + seq!['\n'];
    assert(csv_line(header_row()) == line);
    assert(line =~= seq!['T', 'i', 't', 'l', 'e', ',', 'L', 'i', 'n', 'k', '\n']);
    reveal_with_fuel(utf8_encode, 12);
    assert(utf8_encode(line) =~= seq![84u8, 105u8, 116u8, 108u8, 101u8, 44u8, 76u8, 105u8, 110u8, 107u8, 10u8]);
    let parts = rows.map_values(|f: Seq<Seq<char>>| csv_record(f));
    assert(parts =~= seq![utf8_encode(line)]);
    assert(parts.drop_last() =~= Seq::<Seq<u8>>::empty());
    assert(concat_bytes(parts.drop_last()) == Seq::<u8>::empty());
    assert(parts.last() == utf8_encode(line));
    assert(concat_bytes(parts) =~= utf8_encode(line));
}

} // verus!
