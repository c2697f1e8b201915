use vstd::prelude::*;

verus! {

/// What an LZMA stream decodes to; `None` where it is not a valid stream.
pub uninterp spec fn lzma_decoded(data: Seq<u8>) -> Option<Seq<u8>>;

/// The members of a tar archive, each as its path and its bytes, in archive
/// order; `None` where the archive cannot be read.
pub uninterp spec fn tar_members(data: Seq<u8>) -> Option<Seq<(Seq<char>, Seq<u8>)>>;

/// The records of comma-separated text after its header line, each as its
/// fields, in order; records that cannot be read are left out.
pub uninterp spec fn csv_records(data: Seq<u8>) -> Seq<Seq<Seq<char>>>;

/// The view of a list of members.
pub open spec fn members_view(m: Seq<(String, Vec<u8>)>) -> Seq<(Seq<char>, Seq<u8>)> {
    m.map_values(|e: (String, Vec<u8>)| (e.0@, e.1@))
}

/// The view of a list of records.
pub open spec fn records_view(r: Seq<Vec<String>>) -> Seq<Seq<Seq<char>>> {
    r.map_values(|row: Vec<String>| row@.map_values(|f: String| f@))
}

/// Relies on `lzma_rs::lzma_decompress`: decodes an LZMA stream held in
/// memory, or fails; the outcome depends on the bytes alone.
#[verifier::external_body]
pub(crate) fn decompress(data: &[u8]) -> (r: Option<Vec<u8>>)
    ensures
        match r {
            Some(v) => lzma_decoded(data@) == Some(v@),
            None => lzma_decoded(data@) is None,
        },
{
    let mut out = Vec::new();
    match lzma_rs::lzma_decompress(&mut std::io::Cursor::new(data), &mut out) {
        Ok(()) => Some(out),
        Err(_) => None,
    }
}

/// Relies on `tar::Archive::entries`, `tar::Entry::path` and the entries'
/// `Read`: lists an archive held in memory as (path, bytes) pairs.
#[verifier::external_body]
pub(crate) fn unpack(data: &[u8]) -> (r: Option<Vec<(String, Vec<u8>)>>)
    ensures
        match r {
            Some(m) => tar_members(data@) == Some(members_view(m@)),
            None => tar_members(data@) is None,
        },
{
    let mut archive = tar::Archive::new(data);
    let mut out = Vec::new();
    for entry in archive.entries().ok()? {
        let mut file = entry.ok()?;
        let mut bytes = Vec::new();
        std::io::Read::read_to_end(&mut file, &mut bytes).ok()?;
        let path = file.path().ok()?.to_string_lossy().to_string();
        out.push((path, bytes));
    }
    Some(out)
}

/// Relies on `csv::ReaderBuilder` (comma delimiter, header line) and
/// `csv::Reader::records`: the fields of each record that reads without error.
#[verifier::external_body]
pub(crate) fn read_records(data: &[u8]) -> (r: Vec<Vec<String>>)
    ensures
        records_view(r@) == csv_records(data@),
{
    csv::ReaderBuilder::new()
        .delimiter(b',')
        .has_headers(true)
        .from_reader(data)
        .records()
        .filter_map(|rec| rec.ok())
        .map(|rec| rec.iter().map(|f| f.to_string()).collect())
        .collect()
}

} // verus!
