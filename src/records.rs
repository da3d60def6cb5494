//! Naming and layout of the per-body records: one table per body, keyed by
//! its name, with a header row and then one row per active step.
use vstd::prelude::*;

verus! {

/// The path of the record of the body called `name`.
pub open spec fn record_path_of(name: Seq<char>) -> Seq<char> {
    "results/data/"@ + name + ".csv"@
}

/// The directory that holds the records.
pub fn record_dir() -> (r: String)
    ensures
        r@ == "results/data"@,
{
    String::from_str("results/data")
}

/// The path of the record of the body called `name`, under `record_dir()`.
pub fn record_path(name: &str) -> (r: String)
    ensures
        r@ == record_path_of(name@),
{
    let mut path = String::from_str("results/data/");
    path.append(name);
    path.append(".csv");
    path
}

/// The header row of a record: the step time, then position, velocity and
/// mass, comma separated, ending with a newline.
pub fn record_header() -> (r: String)
    ensures
        r@ == "t,x,y,z,v_x,v_y,v_z,mass\n"@,
{
    String::from_str("t,x,y,z,v_x,v_y,v_z,mass\n")
}

} // verus!
