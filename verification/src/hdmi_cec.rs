use vstd::prelude::*;

verus! {

/// The arguments handed to `cec-ctl` to make the television the active source.
pub open spec fn tv_on_args() -> Seq<Seq<char>> {
    seq!["-s"@, "-t0"@, "--active-source"@, "phys-addr=2.0.0.0"@]
}

/// The arguments handed to `cec-ctl` to put the television (logical address 0) in standby.
pub open spec fn tv_off_args() -> Seq<Seq<char>> {
    seq!["-s"@, "-t0"@, "--standby"@]
}

/// The views of a list of string slices.
pub open spec fn arg_views(args: Seq<&str>) -> Seq<Seq<char>> {
    args.map_values(|a: &str| a@)
}

/// The `cec-ctl` command line that turns the television on.
pub fn turn_tv_on() -> (args: Vec<&'static str>)
    ensures
        arg_views(args@) == tv_on_args(),
{
    let args = vec!["-s", "-t0", "--active-source", "phys-addr=2.0.0.0"];
    assert(arg_views(args@) =~= tv_on_args());
    args
}

/// The `cec-ctl` command line that puts the television in standby.
pub fn turn_tv_off() -> (args: Vec<&'static str>)
    ensures
        arg_views(args@) == tv_off_args(),
{
    let args = vec!["-s", "-t0", "--standby"];
    assert(arg_views(args@) =~= tv_off_args());
    args
}

} // verus!
