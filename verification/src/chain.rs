//! A fixed-length pipeline of typed steps.
//!
//! A type declares how many steps it has through [`Length`] and one
//! [`Chain`] step per index. [`Link`] composes the first `N` steps in
//! ascending order, and [`Cascade`] runs all of them.
use vstd::prelude::*;

verus! {

/// A length known from a type alone.
pub trait Len {
    /// The length as a mathematical number.
    spec fn value() -> nat;

    /// The length.
    fn get() -> (n: usize)
        ensures
            n == Self::value(),
    ;
}

/// The type-level number `N`.
pub struct L<const N: usize>;

impl<const N: usize> Len for L<N> {
    open spec fn value() -> nat {
        N as nat
    }

    fn get() -> (n: usize) {
        N
    }
}

/// Declares the number of steps of a pipeline.
pub trait Length {
    type Len: Len;

    /// The declared number of steps.
    fn len() -> (n: usize)
        ensures
            n == <Self::Len as Len>::value(),
    {
        <Self::Len as Len>::get()
    }
}

/// Holds of a type whose declared length is `L` when step index `N` lies
/// below it. Lengths from 1 to 16 are covered.
pub trait InRange<const N: usize, L>: Length {
}

/// Step `N` of a pipeline: one typed transformation with a contract.
pub trait Chain<const N: usize>: Length + InRange<N, <Self as Length>::Len> {
    type In;

    type Out;

    /// The inputs this step may be run on: every input, unless the step
    /// says otherwise.
    open spec fn accepts(input: Self::In) -> bool {
        true
    }

    /// What the step may hand back for an accepted input: anything, unless
    /// the step says more.
    open spec fn yields(input: Self::In, output: Self::Out) -> bool {
        true
    }

    /// Runs the step.
    fn chain(input: Self::In) -> (output: Self::Out)
        requires
            Self::accepts(input),
        ensures
            Self::yields(input, output),
    ;
}

/// The first `N` steps of a pipeline, run in ascending order of index, each
/// fed with what the one before it handed back.
pub trait Link<const N: usize> {
    type In;

    type Out;

    /// The inputs on which every step meets an input it accepts.
    spec fn accepts(input: Self::In) -> bool;

    /// The outputs that steps `0` to `N - 1`, run in this order, may reach.
    spec fn yields(input: Self::In, output: Self::Out) -> bool;

    /// Runs steps `0` to `N - 1` in this order.
    fn link(input: Self::In) -> (output: Self::Out)
        requires
            Self::accepts(input),
        ensures
            Self::yields(input, output),
    ;
}

impl<T: Chain<0>> Link<1> for T {
    type In = <T as Chain<0>>::In;

    type Out = <T as Chain<0>>::Out;

    open spec fn accepts(input: Self::In) -> bool {
        <T as Chain<0>>::accepts(input)
    }

    open spec fn yields(input: Self::In, output: Self::Out) -> bool {
        <T as Chain<0>>::yields(input, output)
    }

    fn link(input: Self::In) -> (output: Self::Out) {
        <T as Chain<0>>::chain(input)
    }
}

impl<T> Link<2> for T where
    T: Chain<0>,
    T: Link<1, In = <T as Chain<0>>::In>,
    T: Chain<1, In = <T as Link<1>>::Out>,
 {
    type In = <T as Chain<0>>::In;

    type Out = <T as Chain<1>>::Out;

    open spec fn accepts(input: Self::In) -> bool {
        &&& <T as Link<1>>::accepts(input)
        &&& forall|mid: <T as Link<1>>::Out| #[trigger]
            <T as Link<1>>::yields(input, mid) ==> <T as Chain<1>>::accepts(mid)
    }

    open spec fn yields(input: Self::In, output: Self::Out) -> bool {
        exists|mid: <T as Link<1>>::Out| #[trigger]
            <T as Link<1>>::yields(input, mid) && <T as Chain<1>>::yields(mid, output)
    }

    fn link(input: Self::In) -> (output: Self::Out) {
        let mid = <T as Link<1>>::link(input);
        <T as Chain<1>>::chain(mid)
    }
}

impl<T> Link<3> for T where
    T: Chain<0>,
    T: Link<2, In = <T as Chain<0>>::In>,
    T: Chain<2, In = <T as Link<2>>::Out>,
 {
    type In = <T as Chain<0>>::In;

    type Out = <T as Chain<2>>::Out;

    open spec fn accepts(input: Self::In) -> bool {
        &&& <T as Link<2>>::accepts(input)
        &&& forall|mid: <T as Link<2>>::Out| #[trigger]
            <T as Link<2>>::yields(input, mid) ==> <T as Chain<2>>::accepts(mid)
    }

    open spec fn yields(input: Self::In, output: Self::Out) -> bool {
        exists|mid: <T as Link<2>>::Out| #[trigger]
            <T as Link<2>>::yields(input, mid) && <T as Chain<2>>::yields(mid, output)
    }

    fn link(input: Self::In) -> (output: Self::Out) {
        let mid = <T as Link<2>>::link(input);
        <T as Chain<2>>::chain(mid)
    }
}

impl<T> Link<4> for T where
    T: Chain<0>,
    T: Link<3, In = <T as Chain<0>>::In>,
    T: Chain<3, In = <T as Link<3>>::Out>,
 {
    type In = <T as Chain<0>>::In;

    type Out = <T as Chain<3>>::Out;

    open spec fn accepts(input: Self::In) -> bool {
        &&& <T as Link<3>>::accepts(input)
        &&& forall|mid: <T as Link<3>>::Out| #[trigger]
            <T as Link<3>>::yields(input, mid) ==> <T as Chain<3>>::accepts(mid)
    }

    open spec fn yields(input: Self::In, output: Self::Out) -> bool {
        exists|mid: <T as Link<3>>::Out| #[trigger]
            <T as Link<3>>::yields(input, mid) && <T as Chain<3>>::yields(mid, output)
    }

    fn link(input: Self::In) -> (output: Self::Out) {
        let mid = <T as Link<3>>::link(input);
        <T as Chain<3>>::chain(mid)
    }
}

impl<T> Link<5> for T where
    T: Chain<0>,
    T: Link<4, In = <T as Chain<0>>::In>,
    T: Chain<4, In = <T as Link<4>>::Out>,
 {
    type In = <T as Chain<0>>::In;

    type Out = <T as Chain<4>>::Out;

    open spec fn accepts(input: Self::In) -> bool {
        &&& <T as Link<4>>::accepts(input)
        &&& forall|mid: <T as Link<4>>::Out| #[trigger]
            <T as Link<4>>::yields(input, mid) ==> <T as Chain<4>>::accepts(mid)
    }

    open spec fn yields(input: Self::In, output: Self::Out) -> bool {
        exists|mid: <T as Link<4>>::Out| #[trigger]
            <T as Link<4>>::yields(input, mid) && <T as Chain<4>>::yields(mid, output)
    }

    fn link(input: Self::In) -> (output: Self::Out) {
        let mid = <T as Link<4>>::link(input);
        <T as Chain<4>>::chain(mid)
    }
}

impl<T> Link<6> for T where
    T: Chain<0>,
    T: Link<5, In = <T as Chain<0>>::In>,
    T: Chain<5, In = <T as Link<5>>::Out>,
 {
    type In = <T as Chain<0>>::In;

    type Out = <T as Chain<5>>::Out;

    open spec fn accepts(input: Self::In) -> bool {
        &&& <T as Link<5>>::accepts(input)
        &&& forall|mid: <T as Link<5>>::Out| #[trigger]
            <T as Link<5>>::yields(input, mid) ==> <T as Chain<5>>::accepts(mid)
    }

    open spec fn yields(input: Self::In, output: Self::Out) -> bool {
        exists|mid: <T as Link<5>>::Out| #[trigger]
            <T as Link<5>>::yields(input, mid) && <T as Chain<5>>::yields(mid, output)
    }

    fn link(input: Self::In) -> (output: Self::Out) {
        let mid = <T as Link<5>>::link(input);
        <T as Chain<5>>::chain(mid)
    }
}

impl<T> Link<7> for T where
    T: Chain<0>,
    T: Link<6, In = <T as Chain<0>>::In>,
    T: Chain<6, In = <T as Link<6>>::Out>,
 {
    type In = <T as Chain<0>>::In;

    type Out = <T as Chain<6>>::Out;

    open spec fn accepts(input: Self::In) -> bool {
        &&& <T as Link<6>>::accepts(input)
        &&& forall|mid: <T as Link<6>>::Out| #[trigger]
            <T as Link<6>>::yields(input, mid) ==> <T as Chain<6>>::accepts(mid)
    }

    open spec fn yields(input: Self::In, output: Self::Out) -> bool {
        exists|mid: <T as Link<6>>::Out| #[trigger]
            <T as Link<6>>::yields(input, mid) && <T as Chain<6>>::yields(mid, output)
    }

    fn link(input: Self::In) -> (output: Self::Out) {
        let mid = <T as Link<6>>::link(input);
        <T as Chain<6>>::chain(mid)
    }
}

impl<T> Link<8> for T where
    T: Chain<0>,
    T: Link<7, In = <T as Chain<0>>::In>,
    T: Chain<7, In = <T as Link<7>>::Out>,
 {
    type In = <T as Chain<0>>::In;

    type Out = <T as Chain<7>>::Out;

    open spec fn accepts(input: Self::In) -> bool {
        &&& <T as Link<7>>::accepts(input)
        &&& forall|mid: <T as Link<7>>::Out| #[trigger]
            <T as Link<7>>::yields(input, mid) ==> <T as Chain<7>>::accepts(mid)
    }

    open spec fn yields(input: Self::In, output: Self::Out) -> bool {
        exists|mid: <T as Link<7>>::Out| #[trigger]
            <T as Link<7>>::yields(input, mid) && <T as Chain<7>>::yields(mid, output)
    }

    fn link(input: Self::In) -> (output: Self::Out) {
        let mid = <T as Link<7>>::link(input);
        <T as Chain<7>>::chain(mid)
    }
}

impl<T> Link<9> for T where
    T: Chain<0>,
    T: Link<8, In = <T as Chain<0>>::In>,
    T: Chain<8, In = <T as Link<8>>::Out>,
 {
    type In = <T as Chain<0>>::In;

    type Out = <T as Chain<8>>::Out;

    open spec fn accepts(input: Self::In) -> bool {
        &&& <T as Link<8>>::accepts(input)
        &&& forall|mid: <T as Link<8>>::Out| #[trigger]
            <T as Link<8>>::yields(input, mid) ==> <T as Chain<8>>::accepts(mid)
    }

    open spec fn yields(input: Self::In, output: Self::Out) -> bool {
        exists|mid: <T as Link<8>>::Out| #[trigger]
            <T as Link<8>>::yields(input, mid) && <T as Chain<8>>::yields(mid, output)
    }

    fn link(input: Self::In) -> (output: Self::Out) {
        let mid = <T as Link<8>>::link(input);
        <T as Chain<8>>::chain(mid)
    }
}

impl<T> Link<10> for T where
    T: Chain<0>,
    T: Link<9, In = <T as Chain<0>>::In>,
    T: Chain<9, In = <T as Link<9>>::Out>,
 {
    type In = <T as Chain<0>>::In;

    type Out = <T as Chain<9>>::Out;

    open spec fn accepts(input: Self::In) -> bool {
        &&& <T as Link<9>>::accepts(input)
        &&& forall|mid: <T as Link<9>>::Out| #[trigger]
            <T as Link<9>>::yields(input, mid) ==> <T as Chain<9>>::accepts(mid)
    }

    open spec fn yields(input: Self::In, output: Self::Out) -> bool {
        exists|mid: <T as Link<9>>::Out| #[trigger]
            <T as Link<9>>::yields(input, mid) && <T as Chain<9>>::yields(mid, output)
    }

    fn link(input: Self::In) -> (output: Self::Out) {
        let mid = <T as Link<9>>::link(input);
        <T as Chain<9>>::chain(mid)
    }
}

impl<T> Link<11> for T where
    T: Chain<0>,
    T: Link<10, In = <T as Chain<0>>::In>,
    T: Chain<10, In = <T as Link<10>>::Out>,
 {
    type In = <T as Chain<0>>::In;

    type Out = <T as Chain<10>>::Out;

    open spec fn accepts(input: Self::In) -> bool {
        &&& <T as Link<10>>::accepts(input)
        &&& forall|mid: <T as Link<10>>::Out| #[trigger]
            <T as Link<10>>::yields(input, mid) ==> <T as Chain<10>>::accepts(mid)
    }

    open spec fn yields(input: Self::In, output: Self::Out) -> bool {
        exists|mid: <T as Link<10>>::Out| #[trigger]
            <T as Link<10>>::yields(input, mid) && <T as Chain<10>>::yields(mid, output)
    }

    fn link(input: Self::In) -> (output: Self::Out) {
        let mid = <T as Link<10>>::link(input);
        <T as Chain<10>>::chain(mid)
    }
}

impl<T> Link<12> for T where
    T: Chain<0>,
    T: Link<11, In = <T as Chain<0>>::In>,
    T: Chain<11, In = <T as Link<11>>::Out>,
 {
    type In = <T as Chain<0>>::In;

    type Out = <T as Chain<11>>::Out;

    open spec fn accepts(input: Self::In) -> bool {
        &&& <T as Link<11>>::accepts(input)
        &&& forall|mid: <T as Link<11>>::Out| #[trigger]
            <T as Link<11>>::yields(input, mid) ==> <T as Chain<11>>::accepts(mid)
    }

    open spec fn yields(input: Self::In, output: Self::Out) -> bool {
        exists|mid: <T as Link<11>>::Out| #[trigger]
            <T as Link<11>>::yields(input, mid) && <T as Chain<11>>::yields(mid, output)
    }

    fn link(input: Self::In) -> (output: Self::Out) {
        let mid = <T as Link<11>>::link(input);
        <T as Chain<11>>::chain(mid)
    }
}

impl<T> Link<13> for T where
    T: Chain<0>,
    T: Link<12, In = <T as Chain<0>>::In>,
    T: Chain<12, In = <T as Link<12>>::Out>,
 {
    type In = <T as Chain<0>>::In;

    type Out = <T as Chain<12>>::Out;

    open spec fn accepts(input: Self::In) -> bool {
        &&& <T as Link<12>>::accepts(input)
        &&& forall|mid: <T as Link<12>>::Out| #[trigger]
            <T as Link<12>>::yields(input, mid) ==> <T as Chain<12>>::accepts(mid)
    }

    open spec fn yields(input: Self::In, output: Self::Out) -> bool {
        exists|mid: <T as Link<12>>::Out| #[trigger]
            <T as Link<12>>::yields(input, mid) && <T as Chain<12>>::yields(mid, output)
    }

    fn link(input: Self::In) -> (output: Self::Out) {
        let mid = <T as Link<12>>::link(input);
        <T as Chain<12>>::chain(mid)
    }
}

impl<T> Link<14> for T where
    T: Chain<0>,
    T: Link<13, In = <T as Chain<0>>::In>,
    T: Chain<13, In = <T as Link<13>>::Out>,
 {
    type In = <T as Chain<0>>::In;

    type Out = <T as Chain<13>>::Out;

    open spec fn accepts(input: Self::In) -> bool {
        &&& <T as Link<13>>::accepts(input)
        &&& forall|mid: <T as Link<13>>::Out| #[trigger]
            <T as Link<13>>::yields(input, mid) ==> <T as Chain<13>>::accepts(mid)
    }

    open spec fn yields(input: Self::In, output: Self::Out) -> bool {
        exists|mid: <T as Link<13>>::Out| #[trigger]
            <T as Link<13>>::yields(input, mid) && <T as Chain<13>>::yields(mid, output)
    }

    fn link(input: Self::In) -> (output: Self::Out) {
        let mid = <T as Link<13>>::link(input);
        <T as Chain<13>>::chain(mid)
    }
}

impl<T> Link<15> for T where
    T: Chain<0>,
    T: Link<14, In = <T as Chain<0>>::In>,
    T: Chain<14, In = <T as Link<14>>::Out>,
 {
    type In = <T as Chain<0>>::In;

    type Out = <T as Chain<14>>::Out;

    open spec fn accepts(input: Self::In) -> bool {
        &&& <T as Link<14>>::accepts(input)
        &&& forall|mid: <T as Link<14>>::Out| #[trigger]
            <T as Link<14>>::yields(input, mid) ==> <T as Chain<14>>::accepts(mid)
    }

    open spec fn yields(input: Self::In, output: Self::Out) -> bool {
        exists|mid: <T as Link<14>>::Out| #[trigger]
            <T as Link<14>>::yields(input, mid) && <T as Chain<14>>::yields(mid, output)
    }

    fn link(input: Self::In) -> (output: Self::Out) {
        let mid = <T as Link<14>>::link(input);
        <T as Chain<14>>::chain(mid)
    }
}

impl<T> Link<16> for T where
    T: Chain<0>,
    T: Link<15, In = <T as Chain<0>>::In>,
    T: Chain<15, In = <T as Link<15>>::Out>,
 {
    type In = <T as Chain<0>>::In;

    type Out = <T as Chain<15>>::Out;

    open spec fn accepts(input: Self::In) -> bool {
        &&& <T as Link<15>>::accepts(input)
        &&& forall|mid: <T as Link<15>>::Out| #[trigger]
            <T as Link<15>>::yields(input, mid) ==> <T as Chain<15>>::accepts(mid)
    }

    open spec fn yields(input: Self::In, output: Self::Out) -> bool {
        exists|mid: <T as Link<15>>::Out| #[trigger]
            <T as Link<15>>::yields(input, mid) && <T as Chain<15>>::yields(mid, output)
    }

    fn link(input: Self::In) -> (output: Self::Out) {
        let mid = <T as Link<15>>::link(input);
        <T as Chain<15>>::chain(mid)
    }
}

/// A type-level length that knows how to run that many steps of `T`.
pub trait Span<T> {
    type In;

    type Out;

    /// The inputs on which the steps of `T` counted by this length may run.
    spec fn accepts(input: Self::In) -> bool;

    /// The outputs those steps may reach.
    spec fn yields(input: Self::In, output: Self::Out) -> bool;

    /// Runs the steps of `T` counted by this length, in ascending order.
    fn run(input: Self::In) -> (output: Self::Out)
        requires
            Self::accepts(input),
        ensures
            Self::yields(input, output),
    ;
}

impl<const N: usize, T: Link<N>> Span<T> for L<N> {
    type In = <T as Link<N>>::In;

    type Out = <T as Link<N>>::Out;

    open spec fn accepts(input: Self::In) -> bool {
        <T as Link<N>>::accepts(input)
    }

    open spec fn yields(input: Self::In, output: Self::Out) -> bool {
        <T as Link<N>>::yields(input, output)
    }

    fn run(input: Self::In) -> (output: Self::Out) {
        <T as Link<N>>::link(input)
    }
}

/// The whole pipeline: every declared step, in ascending order of index.
pub trait Cascade {
    type In;

    type Out;

    /// The inputs the whole pipeline may be run on.
    spec fn accepts(input: Self::In) -> bool;

    /// The outputs the whole pipeline may reach.
    spec fn yields(input: Self::In, output: Self::Out) -> bool;

    /// Runs every step once, from index 0 to the last.
    fn cascade(input: Self::In) -> (output: Self::Out)
        requires
            Self::accepts(input),
        ensures
            Self::yields(input, output),
    ;
}

impl<T: Length> Cascade for T where <T as Length>::Len: Span<T> {
    type In = <<T as Length>::Len as Span<T>>::In;

    type Out = <<T as Length>::Len as Span<T>>::Out;

    open spec fn accepts(input: Self::In) -> bool {
        <<T as Length>::Len as Span<T>>::accepts(input)
    }

    open spec fn yields(input: Self::In, output: Self::Out) -> bool {
        <<T as Length>::Len as Span<T>>::yields(input, output)
    }

    fn cascade(input: Self::In) -> (output: Self::Out) {
        <<T as Length>::Len as Span<T>>::run(input)
    }
}

impl<T: Length<Len = L<1>>> InRange<0, L<1>> for T {
}

impl<T: Length<Len = L<2>>> InRange<0, L<2>> for T {
}

impl<T: Length<Len = L<2>>> InRange<1, L<2>> for T {
}

impl<T: Length<Len = L<3>>> InRange<0, L<3>> for T {
}

impl<T: Length<Len = L<3>>> InRange<1, L<3>> for T {
}

impl<T: Length<Len = L<3>>> InRange<2, L<3>> for T {
}

impl<T: Length<Len = L<4>>> InRange<0, L<4>> for T {
}

impl<T: Length<Len = L<4>>> InRange<1, L<4>> for T {
}

impl<T: Length<Len = L<4>>> InRange<2, L<4>> for T {
}

impl<T: Length<Len = L<4>>> InRange<3, L<4>> for T {
}

impl<T: Length<Len = L<5>>> InRange<0, L<5>> for T {
}

impl<T: Length<Len = L<5>>> InRange<1, L<5>> for T {
}

impl<T: Length<Len = L<5>>> InRange<2, L<5>> for T {
}

impl<T: Length<Len = L<5>>> InRange<3, L<5>> for T {
}

impl<T: Length<Len = L<5>>> InRange<4, L<5>> for T {
}

impl<T: Length<Len = L<6>>> InRange<0, L<6>> for T {
}

impl<T: Length<Len = L<6>>> InRange<1, L<6>> for T {
}

impl<T: Length<Len = L<6>>> InRange<2, L<6>> for T {
}

impl<T: Length<Len = L<6>>> InRange<3, L<6>> for T {
}

impl<T: Length<Len = L<6>>> InRange<4, L<6>> for T {
}

impl<T: Length<Len = L<6>>> InRange<5, L<6>> for T {
}

impl<T: Length<Len = L<7>>> InRange<0, L<7>> for T {
}

impl<T: Length<Len = L<7>>> InRange<1, L<7>> for T {
}

impl<T: Length<Len = L<7>>> InRange<2, L<7>> for T {
}

impl<T: Length<Len = L<7>>> InRange<3, L<7>> for T {
}

impl<T: Length<Len = L<7>>> InRange<4, L<7>> for T {
}

impl<T: Length<Len = L<7>>> InRange<5, L<7>> for T {
}

impl<T: Length<Len = L<7>>> InRange<6, L<7>> for T {
}

impl<T: Length<Len = L<8>>> InRange<0, L<8>> for T {
}

impl<T: Length<Len = L<8>>> InRange<1, L<8>> for T {
}

impl<T: Length<Len = L<8>>> InRange<2, L<8>> for T {
}

impl<T: Length<Len = L<8>>> InRange<3, L<8>> for T {
}

impl<T: Length<Len = L<8>>> InRange<4, L<8>> for T {
}

impl<T: Length<Len = L<8>>> InRange<5, L<8>> for T {
}

impl<T: Length<Len = L<8>>> InRange<6, L<8>> for T {
}

impl<T: Length<Len = L<8>>> InRange<7, L<8>> for T {
}

impl<T: Length<Len = L<9>>> InRange<0, L<9>> for T {
}

impl<T: Length<Len = L<9>>> InRange<1, L<9>> for T {
}

impl<T: Length<Len = L<9>>> InRange<2, L<9>> for T {
}

impl<T: Length<Len = L<9>>> InRange<3, L<9>> for T {
}

impl<T: Length<Len = L<9>>> InRange<4, L<9>> for T {
}

impl<T: Length<Len = L<9>>> InRange<5, L<9>> for T {
}

impl<T: Length<Len = L<9>>> InRange<6, L<9>> for T {
}

impl<T: Length<Len = L<9>>> InRange<7, L<9>> for T {
}

impl<T: Length<Len = L<9>>> InRange<8, L<9>> for T {
}

impl<T: Length<Len = L<10>>> InRange<0, L<10>> for T {
}

impl<T: Length<Len = L<10>>> InRange<1, L<10>> for T {
}

impl<T: Length<Len = L<10>>> InRange<2, L<10>> for T {
}

impl<T: Length<Len = L<10>>> InRange<3, L<10>> for T {
}

impl<T: Length<Len = L<10>>> InRange<4, L<10>> for T {
}

impl<T: Length<Len = L<10>>> InRange<5, L<10>> for T {
}

impl<T: Length<Len = L<10>>> InRange<6, L<10>> for T {
}

impl<T: Length<Len = L<10>>> InRange<7, L<10>> for T {
}

impl<T: Length<Len = L<10>>> InRange<8, L<10>> for T {
}

impl<T: Length<Len = L<10>>> InRange<9, L<10>> for T {
}

impl<T: Length<Len = L<11>>> InRange<0, L<11>> for T {
}

impl<T: Length<Len = L<11>>> InRange<1, L<11>> for T {
}

impl<T: Length<Len = L<11>>> InRange<2, L<11>> for T {
}

impl<T: Length<Len = L<11>>> InRange<3, L<11>> for T {
}

impl<T: Length<Len = L<11>>> InRange<4, L<11>> for T {
}

impl<T: Length<Len = L<11>>> InRange<5, L<11>> for T {
}

impl<T: Length<Len = L<11>>> InRange<6, L<11>> for T {
}

impl<T: Length<Len = L<11>>> InRange<7, L<11>> for T {
}

impl<T: Length<Len = L<11>>> InRange<8, L<11>> for T {
}

impl<T: Length<Len = L<11>>> InRange<9, L<11>> for T {
}

impl<T: Length<Len = L<11>>> InRange<10, L<11>> for T {
}

impl<T: Length<Len = L<12>>> InRange<0, L<12>> for T {
}

impl<T: Length<Len = L<12>>> InRange<1, L<12>> for T {
}

impl<T: Length<Len = L<12>>> InRange<2, L<12>> for T {
}

impl<T: Length<Len = L<12>>> InRange<3, L<12>> for T {
}

impl<T: Length<Len = L<12>>> InRange<4, L<12>> for T {
}

impl<T: Length<Len = L<12>>> InRange<5, L<12>> for T {
}

impl<T: Length<Len = L<12>>> InRange<6, L<12>> for T {
}

impl<T: Length<Len = L<12>>> InRange<7, L<12>> for T {
}

impl<T: Length<Len = L<12>>> InRange<8, L<12>> for T {
}

impl<T: Length<Len = L<12>>> InRange<9, L<12>> for T {
}

impl<T: Length<Len = L<12>>> InRange<10, L<12>> for T {
}

impl<T: Length<Len = L<12>>> InRange<11, L<12>> for T {
}

impl<T: Length<Len = L<13>>> InRange<0, L<13>> for T {
}

impl<T: Length<Len = L<13>>> InRange<1, L<13>> for T {
}

impl<T: Length<Len = L<13>>> InRange<2, L<13>> for T {
}

impl<T: Length<Len = L<13>>> InRange<3, L<13>> for T {
}

impl<T: Length<Len = L<13>>> InRange<4, L<13>> for T {
}

impl<T: Length<Len = L<13>>> InRange<5, L<13>> for T {
}

impl<T: Length<Len = L<13>>> InRange<6, L<13>> for T {
}

impl<T: Length<Len = L<13>>> InRange<7, L<13>> for T {
}

impl<T: Length<Len = L<13>>> InRange<8, L<13>> for T {
}

impl<T: Length<Len = L<13>>> InRange<9, L<13>> for T {
}

impl<T: Length<Len = L<13>>> InRange<10, L<13>> for T {
}

impl<T: Length<Len = L<13>>> InRange<11, L<13>> for T {
}

impl<T: Length<Len = L<13>>> InRange<12, L<13>> for T {
}

impl<T: Length<Len = L<14>>> InRange<0, L<14>> for T {
}

impl<T: Length<Len = L<14>>> InRange<1, L<14>> for T {
}

impl<T: Length<Len = L<14>>> InRange<2, L<14>> for T {
}

impl<T: Length<Len = L<14>>> InRange<3, L<14>> for T {
}

impl<T: Length<Len = L<14>>> InRange<4, L<14>> for T {
}

impl<T: Length<Len = L<14>>> InRange<5, L<14>> for T {
}

impl<T: Length<Len = L<14>>> InRange<6, L<14>> for T {
}

impl<T: Length<Len = L<14>>> InRange<7, L<14>> for T {
}

impl<T: Length<Len = L<14>>> InRange<8, L<14>> for T {
}

impl<T: Length<Len = L<14>>> InRange<9, L<14>> for T {
}

impl<T: Length<Len = L<14>>> InRange<10, L<14>> for T {
}

impl<T: Length<Len = L<14>>> InRange<11, L<14>> for T {
}

impl<T: Length<Len = L<14>>> InRange<12, L<14>> for T {
}

impl<T: Length<Len = L<14>>> InRange<13, L<14>> for T {
}

impl<T: Length<Len = L<15>>> InRange<0, L<15>> for T {
}

impl<T: Length<Len = L<15>>> InRange<1, L<15>> for T {
}

impl<T: Length<Len = L<15>>> InRange<2, L<15>> for T {
}

impl<T: Length<Len = L<15>>> InRange<3, L<15>> for T {
}

impl<T: Length<Len = L<15>>> InRange<4, L<15>> for T {
}

impl<T: Length<Len = L<15>>> InRange<5, L<15>> for T {
}

impl<T: Length<Len = L<15>>> InRange<6, L<15>> for T {
}

impl<T: Length<Len = L<15>>> InRange<7, L<15>> for T {
}

impl<T: Length<Len = L<15>>> InRange<8, L<15>> for T {
}

impl<T: Length<Len = L<15>>> InRange<9, L<15>> for T {
}

impl<T: Length<Len = L<15>>> InRange<10, L<15>> for T {
}

impl<T: Length<Len = L<15>>> InRange<11, L<15>> for T {
}

impl<T: Length<Len = L<15>>> InRange<12, L<15>> for T {
}

impl<T: Length<Len = L<15>>> InRange<13, L<15>> for T {
}

impl<T: Length<Len = L<15>>> InRange<14, L<15>> for T {
}

impl<T: Length<Len = L<16>>> InRange<0, L<16>> for T {
}

impl<T: Length<Len = L<16>>> InRange<1, L<16>> for T {
}

impl<T: Length<Len = L<16>>> InRange<2, L<16>> for T {
}

impl<T: Length<Len = L<16>>> InRange<3, L<16>> for T {
}

impl<T: Length<Len = L<16>>> InRange<4, L<16>> for T {
}

impl<T: Length<Len = L<16>>> InRange<5, L<16>> for T {
}

impl<T: Length<Len = L<16>>> InRange<6, L<16>> for T {
}

impl<T: Length<Len = L<16>>> InRange<7, L<16>> for T {
}

impl<T: Length<Len = L<16>>> InRange<8, L<16>> for T {
}

impl<T: Length<Len = L<16>>> InRange<9, L<16>> for T {
}

impl<T: Length<Len = L<16>>> InRange<10, L<16>> for T {
}

impl<T: Length<Len = L<16>>> InRange<11, L<16>> for T {
}

impl<T: Length<Len = L<16>>> InRange<12, L<16>> for T {
}

impl<T: Length<Len = L<16>>> InRange<13, L<16>> for T {
}

impl<T: Length<Len = L<16>>> InRange<14, L<16>> for T {
}

impl<T: Length<Len = L<16>>> InRange<15, L<16>> for T {
}

} // verus!
