/// Decision logic of the Newton iteration: exact-match and nearest-root
/// selection, with the tie-break law.
pub mod classifier;
/// The trusted boundary around the `num` crate's complex numbers.
pub mod complex;
/// The binary pixel-map serialization, byte-exact.
pub mod encoder;
/// Complex polynomials: construction from roots, product, derivative,
/// evaluation.
pub mod polynomial;
/// The pixel grid: centering, sampling, and filling the color buffer.
pub mod raster;
