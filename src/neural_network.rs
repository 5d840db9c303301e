use vstd::prelude::*;

verus! {

/// Why a network could not be built or a vector was refused.
#[derive(Debug, Clone, Copy, PartialEq, Eq, Structural)]
pub enum NetworkError {
    /// The layer sizes are empty, or none of them is positive.
    ConstructionError,
    /// An input vector's length differs from the network's input width.
    InvalidInputShape,
    /// A target vector's length differs from the output width, or the
    /// inputs and expected outputs of a training set differ in number.
    DimensionMismatch,
}

/// A network can be built from `sizes`: there is at least one size, and
/// at least one of them is positive.
pub open spec fn valid_layer_sizes(sizes: Seq<usize>) -> bool {
    sizes.len() > 0 && exists|i: int| 0 <= i < sizes.len() && sizes[i] > 0
}

/// The shape `(rows, columns)` of the weight matrix of each layer that has
/// parameters: layer `i` has `sizes[i + 1]` neurons, each with a weight
/// for every neuron of the layer before it.
pub open spec fn weight_shapes(sizes: Seq<usize>) -> Seq<(usize, usize)> {
    Seq::new((sizes.len() - 1) as nat, |i: int| (sizes[i + 1], sizes[i]))
}

/// The shapes of the weight matrices of a network with the given layer
/// sizes, the first of which is the input width; an error where no
/// network can have these sizes.
pub fn layer_shapes(layer_sizes: &[usize]) -> (r: Result<Vec<(usize, usize)>, NetworkError>)
    ensures
        r is Ok <==> valid_layer_sizes(layer_sizes@),
        r matches Ok(shapes) ==> shapes@ == weight_shapes(layer_sizes@),
        r matches Err(e) ==> e == NetworkError::ConstructionError,
{
    let n = layer_sizes.len();
    if n == 0 {
        return Err(NetworkError::ConstructionError);
    }
    let mut any_positive = false;
    let mut i: usize = 0;
    while i < n
        invariant
            n == layer_sizes@.len(),
            i <= n,
            any_positive <==> exists|j: int| 0 <= j < i && layer_sizes@[j] > 0,
        decreases n - i,
    {
        if layer_sizes[i] > 0 {
            any_positive = true;
        }
        i = i + 1;
    }
    if !any_positive {
        return Err(NetworkError::ConstructionError);
    }
    let mut shapes: Vec<(usize, usize)> = Vec::new();
    let mut k: usize = 1;
    while k < n
        invariant
            n == layer_sizes@.len(),
            1 <= k <= n,
            shapes@ =~= weight_shapes(layer_sizes@.subrange(0, k as int)),
        decreases n - k,
    {
        shapes.push((layer_sizes[k], layer_sizes[k - 1]));
        k = k + 1;
    }
    assert(layer_sizes@.subrange(0, n as int) =~= layer_sizes@);
    Ok(shapes)
}

} // verus!
