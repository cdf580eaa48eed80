use vstd::prelude::*;

verus! {

/// What a creep is moving for; decides the colour of its drawn path.
#[derive(Debug, Clone, Copy, PartialEq, Eq, Structural)]
pub enum LineStatus {
    Harvesting,
    Building,
    Storing,
}

impl LineStatus {
    pub open spec fn color_spec(self) -> Seq<char> {
        match self {
            LineStatus::Harvesting => "#34c724"@,
            LineStatus::Building => "#fff258"@,
            LineStatus::Storing => "#39a1e8"@,
        }
    }

    /// The stroke colour of the path.
    pub fn color(&self) -> (r: &'static str)
        ensures
            r@ == self.color_spec(),
    {
        match self {
            LineStatus::Harvesting => "#34c724",
            LineStatus::Building => "#fff258",
            LineStatus::Storing => "#39a1e8",
        }
    }
}

} // verus!
