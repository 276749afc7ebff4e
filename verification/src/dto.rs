use vstd::prelude::*;

verus! {

/// Conversion of a model value into the object sent to clients.
pub trait ObjectToDTO<Input>: Sized {
    fn obj_to_dto(model_input: Input) -> Self;
}

/// `outputs` are what `obj_to_dto` may give for `inputs`, one for one.
pub open spec fn dtos_of<Input, Output: ObjectToDTO<Input>>(
    inputs: Seq<Input>,
    outputs: Seq<Output>,
) -> bool {
    &&& outputs.len() == inputs.len()
    &&& forall|i: int|
        0 <= i < inputs.len() ==> call_ensures(Output::obj_to_dto, (inputs[i],), #[trigger] outputs[i])
}

/// `obj_to_dto` gives one output for each input.
pub open spec fn dto_deterministic<Input, Output: ObjectToDTO<Input>>() -> bool {
    forall|x: Input, a: Output, b: Output|
        call_ensures(Output::obj_to_dto, (x,), a) && call_ensures(Output::obj_to_dto, (x,), b)
            ==> a == b
}

/// Converts every value, keeping the order: each output is what
/// `obj_to_dto` gives for the input at the same position.
pub fn vec_to_dto<Input, Output>(input_vec: Vec<Input>) -> (r: Vec<Output>) where
    Output: ObjectToDTO<Input>,

    ensures
        dtos_of(input_vec@, r@),
{
    let mut dtos: Vec<Output> = Vec::new();
    let ghost all = input_vec@;
    for input in it: input_vec.into_iter()
        invariant
            it.seq() == all,
            dtos@.len() == it.index(),
            forall|j: int|
                0 <= j < it.index() ==> call_ensures(Output::obj_to_dto, (all[j],), #[trigger] dtos@[j]),
    {
        dtos.push(Output::obj_to_dto(input));
    }
    dtos
}

/// Converting a list gives nothing for nothing, and, where `obj_to_dto`
/// gives one output per input, converting two lists joined is converting
/// each and joining the results.
pub proof fn law_vec_to_dto_joins<Input, Output: ObjectToDTO<Input>>(
    a: Seq<Input>,
    b: Seq<Input>,
    ra: Seq<Output>,
    rb: Seq<Output>,
    rab: Seq<Output>,
    r_empty: Seq<Output>,
)
    requires
        dto_deterministic::<Input, Output>(),
        dtos_of(a, ra),
        dtos_of(b, rb),
        dtos_of(a + b, rab),
        dtos_of(Seq::<Input>::empty(), r_empty),
    ensures
        rab == ra + rb,
        r_empty == Seq::<Output>::empty(),
{
    assert forall|i: int| 0 <= i < rab.len() implies rab[i] == (ra + rb)[i] by {
        if i < a.len() {
            assert((a + b)[i] == a[i]);
            assert(call_ensures(Output::obj_to_dto, (a[i],), ra[i]));
            assert(call_ensures(Output::obj_to_dto, ((a + b)[i],), rab[i]));
        } else {
            assert((a + b)[i] == b[i - a.len()]);
            assert(call_ensures(Output::obj_to_dto, (b[i - a.len()],), rb[i - a.len()]));
            assert(call_ensures(Output::obj_to_dto, ((a + b)[i],), rab[i]));
        }
    }
    assert(rab =~= ra + rb);
    assert(r_empty =~= Seq::<Output>::empty());
}

} // verus!
