//! A named unit of content flowing through a pipeline.

use vstd::prelude::*;
use vstd::string::StringSliceAdditionalSpecFns;

use crate::computation::{ready, Computation, ReadyFuture};
use crate::error::ConveyorError;
use crate::station::Station;
use crate::step::Step;
use crate::stream::Stream;

verus! {

/// The content a package carries: bytes, or nothing.
pub enum PackageContent {
    Bytes(Vec<u8>),
    Empty,
}

/// The bytes a content value stands for.
pub open spec fn content_bytes(c: PackageContent) -> Seq<u8> {
    match c {
        PackageContent::Bytes(b) => b@,
        PackageContent::Empty => Seq::<u8>::empty(),
    }
}

impl PackageContent {
    /// A computation that yields the carried bytes.
    pub fn into_future(self) -> (f: ReadyFuture<Result<Vec<u8>, ConveyorError>>)
        ensures
            f.wf(),
            !f.resolved(),
            forall|r: Result<Vec<u8>, ConveyorError>|
                f.post(r) ==> r is Ok && r->Ok_0@ == content_bytes(self),
    {
        match self {
            PackageContent::Bytes(b) => ready(Ok(b)),
            PackageContent::Empty => ready(Ok(Vec::new())),
        }
    }
}

/// Conversion of a value into package content.  `wraps` says which content
/// values the conversion may produce.
pub trait IntoPackageContent: Sized {
    /// Which content values this value may become.
    spec fn wraps(self, c: PackageContent) -> bool;

    /// Converts the value into package content.
    fn into_package_content(self) -> (c: PackageContent)
        ensures
            self.wraps(c),
    ;
}

impl IntoPackageContent for PackageContent {
    open spec fn wraps(self, c: PackageContent) -> bool {
        c == self
    }

    fn into_package_content(self) -> (c: PackageContent) {
        self
    }
}

impl IntoPackageContent for Vec<u8> {
    open spec fn wraps(self, c: PackageContent) -> bool {
        c == PackageContent::Bytes(self)
    }

    fn into_package_content(self) -> (c: PackageContent) {
        PackageContent::Bytes(self)
    }
}

/// Relies on `slice::to_vec`: the vector holds exactly the slice's bytes.
#[verifier::external_body]
fn bytes_to_vec(s: &[u8]) -> (v: Vec<u8>)
    ensures
        v@ == s@,
{
    s.to_vec()
}

impl IntoPackageContent for &str {
    open spec fn wraps(self, c: PackageContent) -> bool {
        c matches PackageContent::Bytes(b) && b@ == self.spec_bytes()
    }

    fn into_package_content(self) -> (c: PackageContent) {
        let b: &[u8] = self.as_bytes();
        PackageContent::Bytes(bytes_to_vec(b))
    }
}

impl IntoPackageContent for String {
    open spec fn wraps(self, c: PackageContent) -> bool {
        c is Bytes
    }

    fn into_package_content(self) -> (c: PackageContent) {
        let b: &[u8] = self.as_str().as_bytes();
        PackageContent::Bytes(bytes_to_vec(b))
    }
}

/// A named unit of content.  The content sits in an option because reading
/// it takes it out, leaving the empty content behind.
pub struct Package {
    pub name: String,
    pub value: Option<PackageContent>,
}

impl Package {
    /// A package carrying `value` under `name`.
    pub fn new<V: IntoPackageContent>(name: &str, value: V) -> (p: Package)
        ensures
            p.name@ == name@,
            p.value matches Some(c) && value.wraps(c),
    {
        Package { name: name.to_owned(), value: Some(value.into_package_content()) }
    }

    /// The package's name.
    pub fn name(&self) -> (n: &str)
        ensures
            n@ == self.name@,
    {
        self.name.as_str()
    }

    /// The same package under another name.
    pub fn set_name(self, name: &str) -> (p: Package)
        ensures
            p.name@ == name@,
            p.value == self.value,
    {
        Package { name: name.to_owned(), value: self.value }
    }

    /// The same package carrying another value.
    pub fn set_value<V: IntoPackageContent>(self, value: V) -> (p: Package)
        ensures
            p.name == self.name,
            p.value matches Some(c) && value.wraps(c),
    {
        Package { name: self.name, value: Some(value.into_package_content()) }
    }

    /// Takes the content out, leaving the empty content in its place, and
    /// hands back a computation that yields the taken bytes.
    pub fn read_content(&mut self) -> (f: ReadyFuture<Result<Vec<u8>, ConveyorError>>)
        requires
            old(self).value is Some,
        ensures
            final(self).name == old(self).name,
            final(self).value == Some(PackageContent::Empty),
            f.wf(),
            !f.resolved(),
            forall|r: Result<Vec<u8>, ConveyorError>|
                f.post(r) ==> r is Ok && r->Ok_0@ == content_bytes(old(self).value->0),
    {
        let content = match self.value.take() {
            Some(c) => c,
            None => PackageContent::Empty,
        };
        self.value = Some(PackageContent::Empty);
        content.into_future()
    }
}

/// A station that wraps each input value as a package under a fixed name.
#[verifier::reject_recursive_types(T)]
pub struct ToPackage<T> {
    pub name: String,
    pub _i: core::marker::PhantomData<T>,
}

impl<T: IntoPackageContent> Station for ToPackage<T> {
    type Input = T;

    type Output = Package;

    type Fut = ReadyFuture<Result<Package, ConveyorError>>;

    open spec fn pre(&self, input: T) -> bool {
        true
    }

    open spec fn post(&self, input: T, r: Result<Package, ConveyorError>) -> bool {
        r matches Ok(p) && p.name@ == self.name@ && (p.value matches Some(c) && input.wraps(c))
    }

    open spec fn fuel_bound(&self) -> nat {
        0
    }

    fn execute(&self, input: T) -> (fut: ReadyFuture<Result<Package, ConveyorError>>) {
        ready(Ok(Package::new(self.name.as_str(), input)))
    }
}

/// A station that packages values under `name`: every delivered package
/// carries that name and a content the input value may convert to.
pub fn to_package<T: IntoPackageContent>(name: &str) -> (s: ToPackage<T>)
    ensures
        s.name@ == name@,
        s.fuel_bound() == 0,
        forall|input: T| #[trigger] s.pre(input),
        forall|input: T, r: Result<Package, ConveyorError>|
            #[trigger] s.post(input, r) == (r matches Ok(p) && p.name@ == name@ && (
            p.value matches Some(c) && input.wraps(c))),
{
    ToPackage { name: name.to_owned(), _i: core::marker::PhantomData }
}

/// What concatenating a stream of chunk results yields, starting from the
/// chunks gathered so far: the first error, or all chunks joined in order.
pub open spec fn concat_chunks<V>(acc: Seq<V>, chunks: Seq<Result<Vec<V>, ConveyorError>>) -> Result<
    Seq<V>,
    ConveyorError,
>
    decreases chunks.len(),
{
    if chunks.len() == 0 {
        Ok(acc)
    } else {
        match chunks[0] {
            Err(e) => Err(e),
            Ok(v) => concat_chunks(acc + v@, chunks.drop_first()),
        }
    }
}

/// A computation that drains a stream of chunk results and concatenates the
/// chunks, stopping at the stream's first error.
#[verifier::reject_recursive_types(V)]
pub struct ConcatStream<Str, V> where Str: Stream<Item = Result<Vec<V>, ConveyorError>> {
    pub stream: Str,
    pub values: Vec<V>,
    pub done: bool,
}

impl<Str, V> ConcatStream<Str, V> where Str: Stream<Item = Result<Vec<V>, ConveyorError>> {
    /// Concatenates everything `stream` will yield.
    pub fn new(stream: Str) -> (c: ConcatStream<Str, V>)
        requires
            stream.wf(),
        ensures
            c.wf(),
            !c.resolved(),
            forall|r: Result<Vec<V>, ConveyorError>|
                c.post(r) <==> result_matches(r, concat_chunks(Seq::<V>::empty(), stream.model())),
    {
        ConcatStream { stream, values: Vec::new(), done: false }
    }
}

/// True when the delivered result `r` is the one the specification value
/// `spec_r` calls for: the same error, or a vector holding the computed
/// element sequence.
pub open spec fn result_matches<V>(
    r: Result<Vec<V>, ConveyorError>,
    spec_r: Result<Seq<V>, ConveyorError>,
) -> bool {
    match spec_r {
        Ok(s) => r matches Ok(v) && v@ == s,
        Err(e) => r == Err::<Vec<V>, ConveyorError>(e),
    }
}

impl<Str, V> Computation for ConcatStream<Str, V> where Str: Stream<
    Item = Result<Vec<V>, ConveyorError>,
> {
    type Output = Result<Vec<V>, ConveyorError>;

    open spec fn wf(&self) -> bool {
        self.stream.wf()
    }

    open spec fn resolved(&self) -> bool {
        self.done
    }

    open spec fn post(&self, r: Result<Vec<V>, ConveyorError>) -> bool {
        result_matches(r, concat_chunks(self.values@, self.stream.model()))
    }

    open spec fn fuel(&self) -> nat {
        self.stream.fuel()
    }

    fn poll(&mut self) -> (s: Step<Result<Vec<V>, ConveyorError>>) {
        loop
            invariant
                self.stream.wf(),
                !self.done,
                concat_chunks(self.values@, self.stream.model()) == concat_chunks(
                    old(self).values@,
                    old(self).stream.model(),
                ),
                self.stream.fuel() <= old(self).stream.fuel(),
            decreases self.stream.fuel(),
        {
            let ghost fuel_before = self.stream.fuel();
            match self.stream.poll_next() {
                Step::Pending => {
                    return Step::Pending;
                },
                Step::Ready(o) => match o {
                    None => {
                        let mut vals: Vec<V> = Vec::new();
                        core::mem::swap(&mut vals, &mut self.values);
                        self.done = true;
                        return Step::Ready(Ok(vals));
                    },
                    Some(chunk_res) => match chunk_res {
                        Err(e) => {
                            self.done = true;
                            return Step::Ready(Err(e));
                        },
                        Ok(chunk) => {
                            let mut chunk = chunk;
                            self.values.append(&mut chunk);
                        },
                    },
                },
            }
        }
    }
}

} // verus!
