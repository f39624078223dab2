use rustls_pemfile::Item;
use vstd::prelude::*;

verus! {

/// Failure to assemble the mutual-TLS credentials.
#[derive(Debug, Clone, PartialEq, Eq)]
pub enum MtlsError {
    /// A file could not be read or parsed.
    FileRead { path: String, reason: String },
    /// The certificate file holds no certificate.
    NoCerts(String),
    /// The key file holds no private key of an accepted kind.
    NoKey(String),
    /// The TLS library refused the credentials.
    Tls(String),
}

/// One PEM section, with its DER contents.
#[derive(Debug, Clone, PartialEq, Eq)]
pub enum PemItem {
    Certificate(Vec<u8>),
    Pkcs8Key(Vec<u8>),
    Pkcs1Key(Vec<u8>),
    Sec1Key(Vec<u8>),
    /// A section of another kind.
    Other,
}

/// A private key in one of the accepted encodings.
#[derive(Debug, Clone, PartialEq, Eq)]
pub enum PrivateKey {
    Pkcs8(Vec<u8>),
    Pkcs1(Vec<u8>),
    Sec1(Vec<u8>),
}

/// The next section of a known kind in `pem` and the text after it, nothing at
/// the end, or the parse error's message.
pub uninterp spec fn pem_section_of(pem: Seq<u8>) -> Result<Option<(PemItem, Seq<u8>)>, Seq<char>>;

/// Relies on `rustls_pemfile::read_one_from_slice`: the next section of a known
/// kind and the text after it, nothing at the end, or the parse error's message.
/// A section is returned only after its END line was consumed, so the text after
/// it is shorter than the input.
#[verifier::external_body]
fn read_pem_section(pem: &[u8]) -> (r: Result<Option<(PemItem, Vec<u8>)>, String>)
    ensures
        pem_section_of(pem@) == match r {
            Ok(Some((item, rest))) => Ok(Some((item, rest@))),
            Ok(None) => Ok(None),
            Err(e) => Err(e@),
        },
        r matches Ok(Some((_, rest))) ==> rest@.len() < pem@.len(),
{
    match rustls_pemfile::read_one_from_slice(pem) {
        Ok(Some((item, rest))) => Ok(Some((match item {
            Item::X509Certificate(c) => PemItem::Certificate(c.to_vec()),
            Item::Pkcs8Key(k) => PemItem::Pkcs8Key(k.secret_pkcs8_der().to_vec()),
            Item::Pkcs1Key(k) => PemItem::Pkcs1Key(k.secret_pkcs1_der().to_vec()),
            Item::Sec1Key(k) => PemItem::Sec1Key(k.secret_sec1_der().to_vec()),
            _ => PemItem::Other,
        }, rest.to_vec()))),
        Ok(None) => Ok(None),
        Err(e) => Err(std::io::Error::from(e).to_string()),
    }
}

/// `found` with `items` in front of its sections.
pub open spec fn after(items: Seq<PemItem>, found: Result<Seq<PemItem>, Seq<char>>) -> Result<
    Seq<PemItem>,
    Seq<char>,
> {
    match found {
        Ok(tail) => Ok(items + tail),
        Err(e) => Err(e),
    }
}

/// All sections of a PEM text, in order, or the first parse error's message.
/// (The length test only makes the definition total: the parser's remainder is
/// always shorter.)
pub open spec fn pem_items_of(pem: Seq<u8>) -> Result<Seq<PemItem>, Seq<char>>
    decreases pem.len(),
{
    match pem_section_of(pem) {
        Ok(Some((item, rest))) => if rest.len() < pem.len() {
            after(seq![item], pem_items_of(rest))
        } else {
            Ok(seq![item])
        },
        Ok(None) => Ok(Seq::empty()),
        Err(e) => Err(e),
    }
}

/// The key that a section holds, if it holds one of an accepted kind.
pub open spec fn key_of(item: PemItem) -> Option<PrivateKey> {
    match item {
        PemItem::Pkcs8Key(k) => Some(PrivateKey::Pkcs8(k)),
        PemItem::Pkcs1Key(k) => Some(PrivateKey::Pkcs1(k)),
        PemItem::Sec1Key(k) => Some(PrivateKey::Sec1(k)),
        _ => None,
    }
}

/// The first key among `items`.
pub open spec fn first_key_of(items: Seq<PemItem>) -> Option<PrivateKey>
    decreases items.len(),
{
    if items.len() == 0 {
        None
    } else if key_of(items[0]) is Some {
        key_of(items[0])
    } else {
        first_key_of(items.subrange(1, items.len() as int))
    }
}

/// The certificates among `items`, in order.
pub open spec fn certs_of(items: Seq<PemItem>) -> Seq<Vec<u8>>
    decreases items.len(),
{
    if items.len() == 0 {
        Seq::empty()
    } else {
        let rest = certs_of(items.subrange(1, items.len() as int));
        match items[0] {
            PemItem::Certificate(c) => seq![c] + rest,
            _ => rest,
        }
    }
}

proof fn lemma_first_key_step(items: Seq<PemItem>, i: int)
    requires
        0 <= i < items.len(),
    ensures
        first_key_of(items.subrange(i, items.len() as int)) == if key_of(items[i]) is Some {
            key_of(items[i])
        } else {
            first_key_of(items.subrange(i + 1, items.len() as int))
        },
{
    let rest = items.subrange(i, items.len() as int);
    assert(rest[0] == items[i]);
    assert(rest.subrange(1, rest.len() as int) =~= items.subrange(i + 1, items.len() as int));
}

proof fn lemma_certs_step(items: Seq<PemItem>, i: int)
    requires
        0 <= i < items.len(),
    ensures
        certs_of(items.subrange(i, items.len() as int)) == match items[i] {
            PemItem::Certificate(c) => seq![c] + certs_of(items.subrange(i + 1, items.len() as int)),
            _ => certs_of(items.subrange(i + 1, items.len() as int)),
        },
{
    let rest = items.subrange(i, items.len() as int);
    assert(rest[0] == items[i]);
    assert(rest.subrange(1, rest.len() as int) =~= items.subrange(i + 1, items.len() as int));
}

fn take_key(item: PemItem) -> (r: Option<PrivateKey>)
    ensures
        r == key_of(item),
{
    match item {
        PemItem::Pkcs8Key(k) => Some(PrivateKey::Pkcs8(k)),
        PemItem::Pkcs1Key(k) => Some(PrivateKey::Pkcs1(k)),
        PemItem::Sec1Key(k) => Some(PrivateKey::Sec1(k)),
        _ => None,
    }
}

/// The first private key of an accepted kind among `items`.
pub fn first_private_key(items: Vec<PemItem>) -> (r: Option<PrivateKey>)
    ensures
        r == first_key_of(items@),
{
    let mut pending = items;
    let ghost all = pending@;
    assert(all.subrange(0, all.len() as int) =~= all);
    let ghost mut taken: int = 0;
    while pending.len() > 0
        invariant
            0 <= taken,
            all == items@,
            taken + pending@.len() == all.len(),
            pending@ == all.subrange(taken, all.len() as int),
            first_key_of(all.subrange(taken, all.len() as int)) == first_key_of(all),
        decreases pending@.len(),
    {
        proof {
            lemma_first_key_step(all, taken);
        }
        let item = pending.remove(0);
        assert(item == all[taken]);
        assert(pending@ =~= all.subrange(taken + 1, all.len() as int));
        if let Some(k) = take_key(item) {
            return Some(k);
        }
        proof {
            taken = taken + 1;
        }
    }
    None
}

/// The certificates among `items`, in order.
pub fn certificates(items: Vec<PemItem>) -> (r: Vec<Vec<u8>>)
    ensures
        r@ == certs_of(items@),
{
    let mut pending = items;
    let ghost all = pending@;
    assert(all.subrange(0, all.len() as int) =~= all);
    let mut out: Vec<Vec<u8>> = Vec::new();
    let ghost mut taken: int = 0;
    while pending.len() > 0
        invariant
            0 <= taken,
            all == items@,
            taken + pending@.len() == all.len(),
            pending@ == all.subrange(taken, all.len() as int),
            out@ + certs_of(all.subrange(taken, all.len() as int)) == certs_of(all),
        decreases pending@.len(),
    {
        proof {
            lemma_certs_step(all, taken);
        }
        let ghost before = out@;
        let item = pending.remove(0);
        assert(pending@ =~= all.subrange(taken + 1, all.len() as int));
        match item {
            PemItem::Certificate(c) => {
                out.push(c);
                assert(before + (seq![c] + certs_of(all.subrange(taken + 1, all.len() as int)))
                    =~= out@ + certs_of(all.subrange(taken + 1, all.len() as int)));
            },
            _ => {},
        }
        proof {
            taken = taken + 1;
        }
    }
    assert(all.subrange(taken, all.len() as int) =~= Seq::<PemItem>::empty());
    assert(out@ + Seq::<Vec<u8>>::empty() =~= out@);
    out
}

/// All sections of a PEM text, in order, or the first parse error's message.
pub fn pem_items(pem: &[u8]) -> (r: Result<Vec<PemItem>, String>)
    ensures
        pem_items_of(pem@) == match r {
            Ok(items) => Ok(items@),
            Err(e) => Err(e@),
        },
{
    let mut items: Vec<PemItem> = Vec::new();
    let mut rest: Vec<u8> = Vec::new();
    let mut i: usize = 0;
    while i < pem.len()
        invariant
            i <= pem@.len(),
            rest@ == pem@.subrange(0, i as int),
        decreases pem@.len() - i,
    {
        rest.push(pem[i]);
        i += 1;
    }
    assert(rest@ =~= pem@);
    assert(items@ + Seq::<PemItem>::empty() =~= items@);
    loop
        invariant
            after(items@, pem_items_of(rest@)) == pem_items_of(pem@),
        decreases rest@.len(),
    {
        match read_pem_section(rest.as_slice()) {
            Ok(Some((item, tail))) => {
                let ghost before = items@;
                proof {
                    match pem_items_of(tail@) {
                        Ok(t) => {
                            assert(before + (seq![item] + t) =~= before.push(item) + t);
                        },
                        Err(_) => {},
                    }
                }
                items.push(item);
                rest = tail;
            },
            Ok(None) => {
                assert(items@ + Seq::<PemItem>::empty() =~= items@);
                return Ok(items);
            },
            Err(e) => {
                return Err(e);
            },
        }
    }
}

/// The certificates of the PEM text read from `path`: all of them, in order; an
/// error naming the path where it does not parse or holds none.
pub fn certs_from_pem(path: &str, pem: &[u8]) -> (r: Result<Vec<Vec<u8>>, MtlsError>)
    ensures
        pem_items_of(pem@) matches Ok(items) ==> if certs_of(items).len() > 0 {
            r matches Ok(c) && c@ == certs_of(items)
        } else {
            r matches Err(MtlsError::NoCerts(p)) && p@ == path@
        },
        pem_items_of(pem@) matches Err(m) ==> (r matches Err(MtlsError::FileRead { path: p, reason })
            && p@ == path@ && reason@ == m),
{
    match pem_items(pem) {
        Ok(items) => {
            let certs = certificates(items);
            if certs.len() == 0 {
                Err(MtlsError::NoCerts(path.to_owned()))
            } else {
                Ok(certs)
            }
        },
        Err(reason) => Err(MtlsError::FileRead { path: path.to_owned(), reason }),
    }
}

/// The first private key of an accepted kind in the PEM text read from `path`;
/// an error naming the path where it does not parse or holds no such key.
pub fn private_key_from_pem(path: &str, pem: &[u8]) -> (r: Result<PrivateKey, MtlsError>)
    ensures
        pem_items_of(pem@) matches Ok(items) ==> match first_key_of(items) {
            Some(k) => r == Ok::<PrivateKey, MtlsError>(k),
            None => r matches Err(MtlsError::NoKey(p)) && p@ == path@,
        },
        pem_items_of(pem@) matches Err(m) ==> (r matches Err(MtlsError::FileRead { path: p, reason })
            && p@ == path@ && reason@ == m),
{
    match pem_items(pem) {
        Ok(items) => match first_private_key(items) {
            Some(k) => Ok(k),
            None => Err(MtlsError::NoKey(path.to_owned())),
        },
        Err(reason) => Err(MtlsError::FileRead { path: path.to_owned(), reason }),
    }
}

} // verus!
