//! Loading CSV tables.
//!
//! The bytes are split into records by the `csv` crate: comma separated,
//! double-quote escaped, records of any length. What that crate yields is not
//! proved here: it is given a name, and the contracts of this module say
//! which table comes out of each sequence of records. The header row is
//! dropped here, after it has been read like any other record.

use crate::error::{
    into_load_result, load_of_parse, Format, LoadError, LoadErrorView, ParseError,
    ParseErrorView,
};
use vstd::prelude::*;

verus! {

/// `csv::Reader`, a reader of CSV records over a source of bytes. Nothing
/// inside it is visible here.
#[verifier::external_type_specification]
#[verifier::external_body]
#[verifier::reject_recursive_types(R)]
pub struct ExCsvReader<R>(csv::Reader<R>);

/// `csv::Error`, the reason a record could not be read.
#[verifier::external_type_specification]
#[verifier::external_body]
pub struct ExCsvError(csv::Error);

/// The records that a `csv::Reader` built over `bytes` yields, first to
/// last: for each one its fields, or the message of the error that reading
/// it gave.
pub uninterp spec fn csv_records(bytes: Seq<u8>, has_headers: bool, flexible: bool) -> Seq<
    Result<Seq<Seq<char>>, Seq<char>>,
>;

/// The records that `rdr` has not yielded yet.
pub uninterp spec fn pending(rdr: csv::Reader<&[u8]>) -> Seq<Result<Seq<Seq<char>>, Seq<char>>>;

/// What `csv::Error` displays as.
pub uninterp spec fn csv_refusal(e: csv::Error) -> Seq<char>;

/// One item of the reader's iterator as plain values: the fields of the
/// record, or the message of the error.
pub open spec fn item_view(item: Result<Vec<String>, csv::Error>) -> Result<
    Seq<Seq<char>>,
    Seq<char>,
> {
    match item {
        Ok(fields) => Ok(fields.deep_view()),
        Err(e) => Err(csv_refusal(e)),
    }
}

/// Builds a `csv::Reader` over `bytes` with `ReaderBuilder`, setting
/// `has_headers` and `flexible` and leaving every other option at its
/// default.
///
/// Trusted: the records that the reader will yield depend on the bytes and
/// the two options alone, and no bytes give no records.
#[verifier::external_body]
fn open_reader(bytes: &[u8], has_headers: bool, flexible: bool) -> (rdr: csv::Reader<&[u8]>)
    ensures
        pending(rdr) == csv_records(bytes@, has_headers, flexible),
        bytes@.len() == 0 ==> pending(rdr).len() == 0,
{
    csv::ReaderBuilder::new().has_headers(has_headers).flexible(flexible).from_reader(bytes)
}

/// Takes the next item of `Reader::records`, with the fields of a record
/// copied into a vector of strings.
///
/// Trusted: a reader with nothing pending yields nothing and stays so;
/// otherwise it yields its first pending record, fields or error, and that
/// record is pending no more.
#[verifier::external_body]
fn next_record(rdr: &mut csv::Reader<&[u8]>) -> (item: Option<Result<Vec<String>, csv::Error>>)
    ensures
        pending(*old(rdr)).len() == 0 ==> item is None && pending(*final(rdr)).len() == 0,
        pending(*old(rdr)).len() > 0 ==> item is Some && item_view(item->Some_0) == pending(
            *old(rdr),
        )[0] && pending(*final(rdr)) == pending(*old(rdr)).skip(1),
{
    match rdr.records().next() {
        None => None,
        Some(Err(e)) => Some(Err(e)),
        Some(Ok(record)) => Some(Ok(record.iter().map(|field| field.to_string()).collect())),
    }
}

/// Formats a `csv::Error` through its `Display` impl.
///
/// Trusted: the text depends on the error alone.
#[verifier::external_body]
fn csv_refusal_text(e: &csv::Error) -> (s: String)
    ensures
        s@ == csv_refusal(*e),
{
    e.to_string()
}

/// Record `i` is the first that could not be read.
pub open spec fn is_first_failure(records: Seq<Result<Seq<Seq<char>>, Seq<char>>>, i: int) -> bool {
    &&& 0 <= i < records.len()
    &&& records[i] is Err
    &&& forall|j: int| 0 <= j < i ==> (#[trigger] records[j]) is Ok
}

/// Some record could not be read.
pub open spec fn has_failure(records: Seq<Result<Seq<Seq<char>>, Seq<char>>>) -> bool {
    exists|i: int| is_first_failure(records, i)
}

/// The fields of each record, in the order of the records. It is meant for
/// records that could all be read.
pub open spec fn rows_of(records: Seq<Result<Seq<Seq<char>>, Seq<char>>>) -> Seq<Seq<Seq<char>>> {
    Seq::new(records.len(), |i: int| records[i]->Ok_0)
}

/// A table without its first row; the empty table stays empty.
pub open spec fn without_header(rows: Seq<Seq<Seq<char>>>) -> Seq<Seq<Seq<char>>> {
    if rows.len() == 0 {
        rows
    } else {
        rows.skip(1)
    }
}

/// The table that a sequence of records stands for.
///
/// Where a record could not be read, the table fails with the message of the
/// first such record, header or not. Otherwise it holds the records in their
/// order, all of them or, with `has_headers`, all but the first.
pub open spec fn table_of(
    records: Seq<Result<Seq<Seq<char>>, Seq<char>>>,
    has_headers: bool,
) -> Result<Seq<Seq<Seq<char>>>, Seq<char>> {
    if has_failure(records) {
        Err(records[choose|i: int| is_first_failure(records, i)]->Err_0)
    } else if has_headers {
        Ok(without_header(rows_of(records)))
    } else {
        Ok(rows_of(records))
    }
}

/// The table that `bytes` hold, as the parser of this module reads them.
pub open spec fn csv_table(bytes: Seq<u8>, has_headers: bool) -> Result<
    Seq<Seq<Seq<char>>>,
    Seq<char>,
> {
    table_of(csv_records(bytes, false, true), has_headers)
}

/// A parsed table with its rows and its error taken by view.
pub open spec fn table_view(r: Result<Vec<Vec<String>>, ParseError>) -> Result<
    Seq<Seq<Seq<char>>>,
    ParseErrorView,
> {
    match r {
        Ok(rows) => Ok(rows.deep_view()),
        Err(e) => Err(e@),
    }
}

/// What parsing returns for a table: the rows as they are, or a parse error
/// of format CSV with the message.
pub open spec fn csv_decoded(table: Result<Seq<Seq<Seq<char>>>, Seq<char>>) -> Result<
    Seq<Seq<Seq<char>>>,
    ParseErrorView,
> {
    match table {
        Ok(rows) => Ok(rows),
        Err(message) => Err(ParseErrorView { format: Format::Csv, message }),
    }
}

/// At most one record is the first that could not be read.
pub proof fn lemma_first_failure_unique(
    records: Seq<Result<Seq<Seq<char>>, Seq<char>>>,
    i: int,
    k: int,
)
    requires
        is_first_failure(records, i),
        is_first_failure(records, k),
    ensures
        i == k,
{
    if i < k {
        assert(records[i] is Ok);
    } else if k < i {
        assert(records[k] is Ok);
    }
}

/// Parses `bytes` as comma-separated records.
///
/// Each record becomes one row of field strings, in the order of the source;
/// rows may differ in length and no field is converted. With `has_headers`
/// the first record is read and validated like the others but is not part of
/// the table. The first record that cannot be read fails the whole parse
/// with a [`ParseError`] of format CSV. No bytes give the empty table.
pub fn parse_csv(bytes: &[u8], has_headers: bool) -> (r: Result<Vec<Vec<String>>, ParseError>)
    ensures
        table_view(r) == csv_decoded(csv_table(bytes@, has_headers)),
        r is Err <==> has_failure(csv_records(bytes@, false, true)),
        bytes@.len() == 0 ==> r is Ok && r->Ok_0@.len() == 0,
{
    let mut rdr = open_reader(bytes, false, true);
    let ghost all = pending(rdr);
    let ghost mut n: int = 0;
    let mut rows: Vec<Vec<String>> = Vec::new();
    let mut header_due: bool = has_headers;
    loop
        invariant
            all == csv_records(bytes@, false, true),
            bytes@.len() == 0 ==> all.len() == 0,
            0 <= n <= all.len(),
            pending(rdr) == all.skip(n),
            forall|j: int| 0 <= j < n ==> (#[trigger] all[j]) is Ok,
            header_due == (has_headers && n == 0),
            rows.deep_view() == rows_of(all).subrange(
                if has_headers && n > 0 {
                    1
                } else {
                    0
                },
                n,
            ),
        decreases pending(rdr).len(),
    {
        let item = next_record(&mut rdr);
        match item {
            None => {
                proof {
                    assert(n == all.len());
                    assert(!has_failure(all)) by {
                        if has_failure(all) {
                            let i = choose|i: int| is_first_failure(all, i);
                            assert(all[i] is Ok);
                        }
                    }
                    if has_headers && n > 0 {
                        assert(rows_of(all).subrange(1, n) =~= rows_of(all).skip(1));
                    } else {
                        assert(rows_of(all).subrange(0, n) =~= rows_of(all));
                    }
                }
                return Ok(rows);
            },
            Some(Err(e)) => {
                proof {
                    assert(all.skip(n)[0] == all[n]);
                    assert(is_first_failure(all, n));
                    let i = choose|i: int| is_first_failure(all, i);
                    lemma_first_failure_unique(all, i, n);
                }
                return Err(ParseError::new(Format::Csv, csv_refusal_text(&e)));
            },
            Some(Ok(fields)) => {
                proof {
                    assert(all.skip(n)[0] == all[n]);
                    assert(all.skip(n).skip(1) =~= all.skip(n + 1));
                }
                let ghost before = rows.deep_view();
                if header_due {
                    header_due = false;
                } else {
                    rows.push(fields);
                    proof {
                        assert(rows.deep_view() =~= before.push(fields.deep_view()));
                        assert(before.push(rows_of(all)[n]) =~= rows_of(all).subrange(
                            if has_headers {
                                1
                            } else {
                                0
                            },
                            n + 1,
                        ));
                    }
                }
                proof {
                    n = n + 1;
                }
            },
        }
    }
}

/// The outcome of reading a file as bytes, taken by view.
pub open spec fn bytes_view(contents: Result<Vec<u8>, String>) -> Result<Seq<u8>, Seq<char>> {
    match contents {
        Ok(bytes) => Ok(bytes@),
        Err(reason) => Err(reason@),
    }
}

/// A loaded table with its rows and its error taken by view.
pub open spec fn loaded_table_view(r: Result<Vec<Vec<String>>, LoadError>) -> Result<
    Seq<Seq<Seq<char>>>,
    LoadErrorView,
> {
    match r {
        Ok(rows) => Ok(rows.deep_view()),
        Err(e) => Err(e@),
    }
}

/// What loading a table returns for the outcome of reading the file at
/// `path`: an I/O failure with the reason where the read failed, else the
/// table that the bytes hold, or a decode failure of format CSV.
pub open spec fn csv_load(
    path: Seq<char>,
    contents: Result<Seq<u8>, Seq<char>>,
    has_headers: bool,
) -> Result<Seq<Seq<Seq<char>>>, LoadErrorView> {
    match contents {
        Ok(bytes) => load_of_parse(csv_decoded(csv_table(bytes, has_headers))),
        Err(reason) => Err(LoadErrorView::IoFailure { path, reason }),
    }
}

/// Loads the table of the CSV file at `path`.
///
/// `contents` is the outcome of reading that file: its bytes, or the reason
/// the read failed. A failed read gives [`LoadError::IoFailure`] with the
/// path and the reason. Bytes that [`parse_csv`] refuses give
/// [`LoadError::DecodeFailure`] with format CSV and the parser's message.
/// Otherwise the table is returned, without its first row where
/// `has_headers` is set.
pub fn read_csv(
    path: &str,
    contents: Result<Vec<u8>, String>,
    has_headers: bool,
) -> (r: Result<Vec<Vec<String>>, LoadError>)
    ensures
        loaded_table_view(r) == csv_load(path@, bytes_view(contents), has_headers),
        r is Ok <==> contents is Ok && csv_table(contents->Ok_0@, has_headers) is Ok,
        contents is Ok && contents->Ok_0@.len() == 0 ==> r is Ok && r->Ok_0@.len() == 0,
{
    match contents {
        Ok(bytes) => into_load_result(parse_csv(bytes.as_slice(), has_headers)),
        Err(reason) => Err(LoadError::io_failure(path, reason)),
    }
}

/// With a header row, a table that can be read loses its first row and
/// nothing else.
///
/// If the bytes parse without a header row into `n` rows, they parse with a
/// header row too, into the same rows in the same order but for the first:
/// `n - 1` rows, or none where `n` is 0. Without a header row there is one
/// row for each record of the source, in the order of the source.
pub proof fn lemma_header_takes_one_row(bytes: Seq<u8>)
    requires
        csv_table(bytes, false) is Ok,
    ensures
        csv_table(bytes, true) is Ok,
        csv_table(bytes, false)->Ok_0.len() == csv_records(bytes, false, true).len(),
        forall|i: int|
            0 <= i < csv_records(bytes, false, true).len() ==> csv_records(
                bytes,
                false,
                true,
            )[i] == Ok::<Seq<Seq<char>>, Seq<char>>(#[trigger] csv_table(bytes, false)->Ok_0[i]),
        csv_table(bytes, true)->Ok_0 == without_header(csv_table(bytes, false)->Ok_0),
        csv_table(bytes, false)->Ok_0.len() > 0 ==> csv_table(bytes, true)->Ok_0.len()
            == csv_table(bytes, false)->Ok_0.len() - 1,
        csv_table(bytes, false)->Ok_0.len() == 0 ==> csv_table(bytes, true)->Ok_0.len() == 0,
        forall|i: int|
            0 <= i < csv_table(bytes, true)->Ok_0.len() ==> #[trigger] csv_table(
                bytes,
                true,
            )->Ok_0[i] == csv_table(bytes, false)->Ok_0[i + 1],
{
    let records = csv_records(bytes, false, true);
    assert forall|i: int| 0 <= i < records.len() implies records[i] == Ok::<
        Seq<Seq<char>>,
        Seq<char>,
    >(#[trigger] csv_table(bytes, false)->Ok_0[i]) by {
        if records[i] is Err {
            lemma_failure_has_first(records, i);
        }
    }
}

/// A source that cannot be read fails alike with and without a header row:
/// the header row is validated like every other.
pub proof fn lemma_header_fails_alike(bytes: Seq<u8>)
    ensures
        csv_table(bytes, false) is Err <==> csv_table(bytes, true) is Err,
        csv_table(bytes, false) is Err ==> csv_table(bytes, true) == csv_table(bytes, false),
{
}

/// Where some record could not be read, one of them is the first.
pub proof fn lemma_failure_has_first(records: Seq<Result<Seq<Seq<char>>, Seq<char>>>, i: int)
    requires
        0 <= i < records.len(),
        records[i] is Err,
    ensures
        has_failure(records),
    decreases i,
{
    if exists|j: int| 0 <= j < i && (#[trigger] records[j]) is Err {
        let j = choose|j: int| 0 <= j < i && (#[trigger] records[j]) is Err;
        lemma_failure_has_first(records, j);
    } else {
        assert(is_first_failure(records, i));
    }
}

} // verus!
