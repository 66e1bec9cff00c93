use vstd::prelude::*;
use scrypto::prelude::{ComponentAddress, PackageAddress, ResourceAddress};
use crate::error::TransactionSubmissionError;

verus! {

#[verifier::external_type_specification]
#[verifier::external_body]
pub struct ExPackageAddress(PackageAddress);

#[verifier::external_type_specification]
#[verifier::external_body]
pub struct ExComponentAddress(ComponentAddress);

#[verifier::external_type_specification]
#[verifier::external_body]
pub struct ExResourceAddress(ResourceAddress);

/// The package address that a hex string denotes, if any.
pub uninterp spec fn package_address_of(s: Seq<char>) -> Option<PackageAddress>;

/// The component address that a hex string denotes, if any.
pub uninterp spec fn component_address_of(s: Seq<char>) -> Option<ComponentAddress>;

/// The resource address that a hex string denotes, if any.
pub uninterp spec fn resource_address_of(s: Seq<char>) -> Option<ResourceAddress>;

/// Relies on scrypto's `PackageAddress::try_from_hex`, whose result depends
/// on the string alone.
#[verifier::external_body]
fn parse_package_address(s: &String) -> (r: Option<PackageAddress>)
    ensures
        r == package_address_of(s@),
{
    PackageAddress::try_from_hex(s)
}

/// Relies on scrypto's `ComponentAddress::try_from_hex`, whose result depends
/// on the string alone.
#[verifier::external_body]
fn parse_component_address(s: &String) -> (r: Option<ComponentAddress>)
    ensures
        r == component_address_of(s@),
{
    ComponentAddress::try_from_hex(s)
}

/// Relies on scrypto's `ResourceAddress::try_from_hex`, whose result depends
/// on the string alone.
#[verifier::external_body]
fn parse_resource_address(s: &String) -> (r: Option<ResourceAddress>)
    ensures
        r == resource_address_of(s@),
{
    ResourceAddress::try_from_hex(s)
}

/// An address string of a receipt that does not parse as the address it names.
#[derive(Debug, Clone)]
pub struct InvalidAddress {
    pub address: String,
}

/// `out` holds the address that each parse result of `parsed` gives, one for
/// one.
pub open spec fn parsed_in_full<A>(parsed: Seq<Option<A>>, out: Seq<A>) -> bool {
    &&& out.len() == parsed.len()
    &&& forall|i: int| 0 <= i < parsed.len() ==> #[trigger] parsed[i] == Some(out[i])
}

/// Every parse result of `parsed` is an address.
pub open spec fn all_parse<A>(parsed: Seq<Option<A>>) -> bool {
    forall|i: int| 0 <= i < parsed.len() ==> #[trigger] parsed[i] is Some
}

/// `bad` is the first string of `strs` whose parse result in `parsed` is no
/// address.
pub open spec fn first_unparsed<A>(strs: Seq<String>, parsed: Seq<Option<A>>, bad: Seq<char>) -> bool {
    exists|k: int|
        0 <= k < strs.len() && #[trigger] strs[k]@ == bad && parsed[k] is None && all_parse(
            parsed.take(k),
        )
}

/// The package address that each string of `strs` denotes, if any.
pub open spec fn package_parses(strs: Seq<String>) -> Seq<Option<PackageAddress>> {
    Seq::new(strs.len(), |i: int| package_address_of(strs[i]@))
}

/// The component address that each string of `strs` denotes, if any.
pub open spec fn component_parses(strs: Seq<String>) -> Seq<Option<ComponentAddress>> {
    Seq::new(strs.len(), |i: int| component_address_of(strs[i]@))
}

/// The resource address that each string of `strs` denotes, if any.
pub open spec fn resource_parses(strs: Seq<String>) -> Seq<Option<ResourceAddress>> {
    Seq::new(strs.len(), |i: int| resource_address_of(strs[i]@))
}

/// What the submission endpoint reports on a transaction.
#[derive(Debug, Clone)]
pub struct Receipt {
    pub transaction_hash: String,
    pub status: String,
    pub outputs: Vec<String>,
    pub logs: Vec<String>,
    pub new_packages: Vec<String>,
    pub new_components: Vec<String>,
    pub new_resources: Vec<String>,
}

impl Receipt {
    /// The packages that the transaction created, parsed; the first entry that
    /// is no package address is the error.
    pub fn new_packages(&self) -> (r: Result<Vec<PackageAddress>, InvalidAddress>)
        ensures
            r is Ok <==> all_parse(package_parses(self.new_packages@)),
            r is Ok ==> parsed_in_full(package_parses(self.new_packages@), r->Ok_0@),
            r is Err ==> first_unparsed(
                self.new_packages@,
                package_parses(self.new_packages@),
                r->Err_0.address@,
            ),
    {
        let strs = &self.new_packages;
        let ghost parsed = package_parses(strs@);
        let mut out: Vec<PackageAddress> = Vec::new();
        let mut i: usize = 0;
        while i < strs.len()
            invariant
                i <= strs@.len(),
                parsed == package_parses(strs@),
                strs@ == self.new_packages@,
                parsed_in_full(parsed.take(i as int), out@),
            decreases strs@.len() - i,
        {
            match parse_package_address(&strs[i]) {
                Some(a) => {
                    out.push(a);
                },
                None => {
                    let bad = strs[i].clone();
                    proof {
                        assert(parsed.take(i as int).len() == i);
                        assert(all_parse(parsed.take(i as int)));
                        assert(strs@[i as int]@ == bad@);
                        assert(parsed[i as int] is None);
                        assert(first_unparsed(strs@, parsed, bad@));
                    }
                    return Err(InvalidAddress { address: bad });
                },
            }
            i = i + 1;
            assert(forall|j: int| 0 <= j < i ==> #[trigger] parsed.take(i as int)[j] == parsed[j]);
        }
        assert(parsed.take(i as int) =~= parsed);
        Ok(out)
    }

    /// The components that the transaction created, parsed; the first entry that
    /// is no component address is the error.
    pub fn new_components(&self) -> (r: Result<Vec<ComponentAddress>, InvalidAddress>)
        ensures
            r is Ok <==> all_parse(component_parses(self.new_components@)),
            r is Ok ==> parsed_in_full(component_parses(self.new_components@), r->Ok_0@),
            r is Err ==> first_unparsed(
                self.new_components@,
                component_parses(self.new_components@),
                r->Err_0.address@,
            ),
    {
        let strs = &self.new_components;
        let ghost parsed = component_parses(strs@);
        let mut out: Vec<ComponentAddress> = Vec::new();
        let mut i: usize = 0;
        while i < strs.len()
            invariant
                i <= strs@.len(),
                parsed == component_parses(strs@),
                strs@ == self.new_components@,
                parsed_in_full(parsed.take(i as int), out@),
            decreases strs@.len() - i,
        {
            match parse_component_address(&strs[i]) {
                Some(a) => {
                    out.push(a);
                },
                None => {
                    let bad = strs[i].clone();
                    proof {
                        assert(parsed.take(i as int).len() == i);
                        assert(all_parse(parsed.take(i as int)));
                        assert(strs@[i as int]@ == bad@);
                        assert(parsed[i as int] is None);
                        assert(first_unparsed(strs@, parsed, bad@));
                    }
                    return Err(InvalidAddress { address: bad });
                },
            }
            i = i + 1;
            assert(forall|j: int| 0 <= j < i ==> #[trigger] parsed.take(i as int)[j] == parsed[j]);
        }
        assert(parsed.take(i as int) =~= parsed);
        Ok(out)
    }

    /// The resources that the transaction created, parsed; the first entry that
    /// is no resource address is the error.
    pub fn new_resources(&self) -> (r: Result<Vec<ResourceAddress>, InvalidAddress>)
        ensures
            r is Ok <==> all_parse(resource_parses(self.new_resources@)),
            r is Ok ==> parsed_in_full(resource_parses(self.new_resources@), r->Ok_0@),
            r is Err ==> first_unparsed(
                self.new_resources@,
                resource_parses(self.new_resources@),
                r->Err_0.address@,
            ),
    {
        let strs = &self.new_resources;
        let ghost parsed = resource_parses(strs@);
        let mut out: Vec<ResourceAddress> = Vec::new();
        let mut i: usize = 0;
        while i < strs.len()
            invariant
                i <= strs@.len(),
                parsed == resource_parses(strs@),
                strs@ == self.new_resources@,
                parsed_in_full(parsed.take(i as int), out@),
            decreases strs@.len() - i,
        {
            match parse_resource_address(&strs[i]) {
                Some(a) => {
                    out.push(a);
                },
                None => {
                    let bad = strs[i].clone();
                    proof {
                        assert(parsed.take(i as int).len() == i);
                        assert(all_parse(parsed.take(i as int)));
                        assert(strs@[i as int]@ == bad@);
                        assert(parsed[i as int] is None);
                        assert(first_unparsed(strs@, parsed, bad@));
                    }
                    return Err(InvalidAddress { address: bad });
                },
            }
            i = i + 1;
            assert(forall|j: int| 0 <= j < i ==> #[trigger] parsed.take(i as int)[j] == parsed[j]);
        }
        assert(parsed.take(i as int) =~= parsed);
        Ok(out)
    }
}

/// The outcome of a submission whose response body was `body`, given what
/// the JSON reader made of it: the receipt it read, or else an error that
/// carries the body unchanged.
pub fn receipt_from_response(body: String, parsed: Option<Receipt>) -> (r: Result<
    Receipt,
    TransactionSubmissionError,
>)
    ensures
        parsed is Some ==> r == Ok::<Receipt, TransactionSubmissionError>(parsed->Some_0),
        parsed is None ==> (r matches Err(
            TransactionSubmissionError::JsonDeserializationError(text),
        ) && text@ == body@),
{
    match parsed {
        Some(receipt) => Ok(receipt),
        None => Err(TransactionSubmissionError::JsonDeserializationError(body)),
    }
}

} // verus!
