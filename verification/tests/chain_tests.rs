use bevy_micro_tools::chain::{Cascade, Chain, Len, Length, Link, Span, L};

struct ChainTest;

impl Chain<0> for ChainTest {
    type In = f32;
    type Out = i32;

    fn chain(input: Self::In) -> Self::Out {
        let output = input as i32;
        println!("Chain 0: {input} -> {output}");
        output
    }
}

impl Chain<1> for ChainTest {
    type In = i32;
    type Out = u32;

    fn chain(input: Self::In) -> Self::Out {
        let output = input as u32;
        println!("Chain 1: {input} -> {output}");
        output
    }
}

impl Chain<2> for ChainTest {
    type In = u32;
    type Out = String;

    fn chain(input: Self::In) -> Self::Out {
        let mut output = String::new();
        let mut n = input;
        while n >= 1_000 {
            output = format!(",{:03}{}", n % 1_000, output);
            n /= 1_000;
        }
        println!("Chain 2: {input} -> {n}{output}");
        output
    }
}

impl Length for ChainTest {
    type Len = L<3>;
}

#[test]
fn testing() {
    ChainTest::cascade(-1.5);
}

#[test]
fn cascade_threads_each_output_into_the_next_step() {
    // -1.5 truncates to -1, which reinterprets as 4_294_967_295.
    assert_eq!(ChainTest::cascade(-1.5), ",294,967,295");
    assert_eq!(ChainTest::cascade(999.0), "");
    assert_eq!(ChainTest::cascade(1_000.0), ",000");
}

#[test]
fn declared_length_is_reported() {
    assert_eq!(<ChainTest as Length>::len(), 3);
}

#[test]
fn link_runs_a_prefix_of_the_steps() {
    assert_eq!(<ChainTest as Link<1>>::link(7.9), 7);
    assert_eq!(<ChainTest as Link<2>>::link(-1.0), u32::MAX);
    assert_eq!(<ChainTest as Link<3>>::link(1_234_567.0), ",234,567");
}

struct Recorder;

impl Length for Recorder {
    type Len = L<4>;
}

impl Chain<0> for Recorder {
    type In = Vec<usize>;
    type Out = Vec<usize>;

    fn chain(mut input: Self::In) -> Self::Out {
        input.push(0);
        input
    }
}

impl Chain<1> for Recorder {
    type In = Vec<usize>;
    type Out = Vec<usize>;

    fn chain(mut input: Self::In) -> Self::Out {
        input.push(1);
        input
    }
}

impl Chain<2> for Recorder {
    type In = Vec<usize>;
    type Out = Vec<usize>;

    fn chain(mut input: Self::In) -> Self::Out {
        input.push(2);
        input
    }
}

impl Chain<3> for Recorder {
    type In = Vec<usize>;
    type Out = Vec<usize>;

    fn chain(mut input: Self::In) -> Self::Out {
        input.push(3);
        input
    }
}

#[test]
fn steps_run_in_ascending_order() {
    assert_eq!(Recorder::cascade(Vec::new()), vec![0, 1, 2, 3]);
    // Every run keeps the order.
    let twice = Recorder::cascade(Recorder::cascade(Vec::new()));
    assert_eq!(twice, vec![0, 1, 2, 3, 0, 1, 2, 3]);
}

#[test]
fn type_level_length_is_its_number() {
    assert_eq!(<L<1> as Len>::get(), 1);
    assert_eq!(<L<16> as Len>::get(), 16);
    assert_eq!(<Recorder as Length>::len(), 4);
}

#[test]
fn span_runs_as_many_steps_as_the_length_counts() {
    assert_eq!(<L<2> as Span<Recorder>>::run(vec![9]), vec![9, 0, 1]);
    assert_eq!(<L<4> as Span<Recorder>>::run(Vec::new()), vec![0, 1, 2, 3]);
    assert_eq!(<L<3> as Span<ChainTest>>::run(2_000.5), ",000");
}
