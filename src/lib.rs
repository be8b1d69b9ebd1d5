//! Algebraic capability sets (scalars, modules, bases, forms, metrics, norms
//! and inner-product spaces) whose derived operations are verified against the
//! primitive ones.
pub mod algebra;
pub mod laws;
pub mod metric;

pub use algebra::{
    AlternatingForm, BilinearForm, BilinearModule, ConvergentBasis, CountableBasis,
    CountableModule, FiniteBasis, FiniteModule, QuadradicForm, QuadradicModule, RingModule,
    Scalar, SymmetricForm,
};
pub use metric::{
    angle_of_signs, sign_i32, sign_i64, Angle, BilinearFormOn, InnerProduct, InnerProductMetric,
    InnerProductSpace, Metric, Norm, NormedMetric, ReflexiveForm, Seminorm, SesquilinearForm,
    Sign, SymSesquilinearForm,
};
