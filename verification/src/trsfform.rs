
use vstd::prelude::*;

verus! {

/// Classification of a planar transform by the way it was last set.
#[derive(Debug, Clone, Copy, PartialEq, Eq, Structural)]
pub enum TrsfForm {
    Identity,
    Rotation,
    Translation,
    PointMirror,
    Ax1Mirror,
    Ax2Mirror,
    Scale,
    CompoundTrsf,
    Other,
}

impl TrsfForm {
    /// The name of the variant, as it is written in the source.
    pub open spec fn name(self) -> Seq<char> {
        match self {
            TrsfForm::Identity => "Identity"@,
            TrsfForm::Rotation => "Rotation"@,
            TrsfForm::Translation => "Translation"@,
            TrsfForm::PointMirror => "PointMirror"@,
            TrsfForm::Ax1Mirror => "Ax1Mirror"@,
            TrsfForm::Ax2Mirror => "Ax2Mirror"@,
            TrsfForm::Scale => "Scale"@,
            TrsfForm::CompoundTrsf => "CompoundTrsf"@,
            TrsfForm::Other => "Other"@,
        }
    }

    pub fn as_str(&self) -> (s: &'static str)
        ensures
            s@ == self.name(),
    {
        match self {
            TrsfForm::Identity => "Identity",
            TrsfForm::Rotation => "Rotation",
            TrsfForm::Translation => "Translation",
            TrsfForm::PointMirror => "PointMirror",
            TrsfForm::Ax1Mirror => "Ax1Mirror",
            TrsfForm::Ax2Mirror => "Ax2Mirror",
            TrsfForm::Scale => "Scale",
            TrsfForm::CompoundTrsf => "CompoundTrsf",
            TrsfForm::Other => "Other",
        }
    }
}

} // verus!
