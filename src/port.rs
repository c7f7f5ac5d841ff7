//! Choosing the input port among those the system offers.
use vstd::prelude::*;

verus! {

/// How the input port is to be chosen, given how many there are.
#[derive(Clone, Copy, Debug, PartialEq, Eq, Structural)]
pub enum PortChoice {
    /// There is no port to read from.
    NoneAvailable,
    /// There is exactly one port: take it without asking.
    Only,
    /// There are several: ask the operator for an index.
    Ask,
}

/// Why no port could be chosen.
#[derive(Clone, Copy, Debug, PartialEq, Eq, Structural)]
pub enum PortError {
    NoInputPort,
    InvalidIndex,
}

/// Decides how to pick among `count` ports.
pub fn port_choice(count: usize) -> (r: PortChoice)
    ensures
        r == (if count == 0 {
            PortChoice::NoneAvailable
        } else if count == 1 {
            PortChoice::Only
        } else {
            PortChoice::Ask
        }),
{
    if count == 0 {
        PortChoice::NoneAvailable
    } else if count == 1 {
        PortChoice::Only
    } else {
        PortChoice::Ask
    }
}

/// Checks the index the operator selected among `count` ports.
pub fn pick_port(count: usize, selected: usize) -> (r: Result<usize, PortError>)
    ensures
        count == 0 ==> r == Err::<usize, PortError>(PortError::NoInputPort),
        count > 0 && selected < count ==> r == Ok::<usize, PortError>(selected),
        count > 0 && selected >= count ==> r == Err::<usize, PortError>(PortError::InvalidIndex),
{
    if count == 0 {
        Err(PortError::NoInputPort)
    } else if selected < count {
        Ok(selected)
    } else {
        Err(PortError::InvalidIndex)
    }
}

} // verus!
