//! The choice of an overlay subnet that no interface of the machine serves
//! yet.

use rand::Rng;
use vstd::prelude::*;
use vstd::string::StringExecFns;

verus! {

/// An overlay subnet `10.94.x.0/24` and the interface that serves it.
#[derive(Debug)]
pub struct SubnetIpv4Info {
    subnet: [u8; 4],
    mask: [u8; 4],
    node_ip: [u8; 4],
    interface_name: String,
}

/// A `SubnetIpv4Info` as sequences: three addresses of four bytes each, and
/// the interface's name.
pub struct SubnetIpv4InfoView {
    pub subnet: Seq<u8>,
    pub mask: Seq<u8>,
    pub node_ip: Seq<u8>,
    pub interface_name: Seq<char>,
}

impl View for SubnetIpv4Info {
    type V = SubnetIpv4InfoView;

    closed spec fn view(&self) -> SubnetIpv4InfoView {
        SubnetIpv4InfoView {
            subnet: self.subnet@,
            mask: self.mask@,
            node_ip: self.node_ip@,
            interface_name: self.interface_name@,
        }
    }
}

impl SubnetIpv4Info {
    /// The subnet's address.
    pub fn subnet(&self) -> (address: [u8; 4])
        ensures
            address@ == self@.subnet,
    {
        self.subnet
    }

    /// The subnet's mask.
    pub fn mask(&self) -> (address: [u8; 4])
        ensures
            address@ == self@.mask,
    {
        self.mask
    }

    /// This node's address in the subnet.
    pub fn node_ip(&self) -> (address: [u8; 4])
        ensures
            address@ == self@.node_ip,
    {
        self.node_ip
    }

    /// The name of the interface that serves the subnet.
    pub fn interface_name(&self) -> (name: &str)
        ensures
            name@ == self@.interface_name,
    {
        self.interface_name.as_str()
    }
}

/// No subnet could be found.
#[derive(Debug, Clone, Copy, PartialEq, Eq, Structural)]
pub enum SubnetError {
    /// Every subnet that was tried is already served by an interface.
    NoFreeSubnet,
}

/// How many subnets are tried before giving up.
pub const SUBNET_TRIES: u32 = 100;

/// Subnets are numbered from 0 up to, not including, this.
pub const SUBNET_NUMBERS: u8 = 255;

/// The character of a decimal digit.
pub open spec fn digit_char(digit: nat) -> char {
    if digit == 0 {
        '0'
    } else if digit == 1 {
        '1'
    } else if digit == 2 {
        '2'
    } else if digit == 3 {
        '3'
    } else if digit == 4 {
        '4'
    } else if digit == 5 {
        '5'
    } else if digit == 6 {
        '6'
    } else if digit == 7 {
        '7'
    } else if digit == 8 {
        '8'
    } else {
        '9'
    }
}

/// A number in decimal, without leading zeros.
pub open spec fn decimal(n: nat) -> Seq<char>
    decreases n,
{
    if n < 10 {
        seq![digit_char(n)]
    } else {
        decimal(n / 10).push(digit_char(n % 10))
    }
}

/// The name of the interface that serves subnet `number`.
pub open spec fn interface_name_for(number: u8) -> Seq<char> {
    "vpn_10_94_"@ + decimal(number as nat)
}

/// Subnet `number` and the node with the address that ends in `ip_suffix`.
pub open spec fn subnet_numbered(number: u8, ip_suffix: u8) -> SubnetIpv4InfoView {
    SubnetIpv4InfoView {
        subnet: seq![10u8, 94u8, number, 0u8],
        mask: seq![255u8, 255u8, 255u8, 0u8],
        node_ip: seq![10u8, 94u8, number, ip_suffix],
        interface_name: interface_name_for(number),
    }
}

/// Whether one of the interfaces has this name.
pub open spec fn name_taken(interfaces: Seq<String>, name: Seq<char>) -> bool {
    exists|i: int| 0 <= i < interfaces.len() && #[trigger] interfaces[i]@ == name
}

/// What subnet `number` gives: nothing where its interface exists already.
pub open spec fn free_subnet(number: u8, ip_suffix: u8, interfaces: Seq<String>) -> Option<
    SubnetIpv4InfoView,
> {
    if name_taken(interfaces, interface_name_for(number)) {
        None
    } else {
        Some(subnet_numbered(number, ip_suffix))
    }
}

/// A found subnet as sequences.
pub open spec fn found_view(found: Option<SubnetIpv4Info>) -> Option<SubnetIpv4InfoView> {
    match found {
        Some(info) => Some(info@),
        None => None,
    }
}

fn digit_text(digit: u8) -> (text: &'static str)
    requires
        digit < 10,
    ensures
        text@ == seq![digit_char(digit as nat)],
{
    proof {
        reveal_strlit("0");
        reveal_strlit("1");
        reveal_strlit("2");
        reveal_strlit("3");
        reveal_strlit("4");
        reveal_strlit("5");
        reveal_strlit("6");
        reveal_strlit("7");
        reveal_strlit("8");
        reveal_strlit("9");
    }
    match digit {
        0 => "0",
        1 => "1",
        2 => "2",
        3 => "3",
        4 => "4",
        5 => "5",
        6 => "6",
        7 => "7",
        8 => "8",
        _ => "9",
    }
}

/// Writes a number in decimal.
pub fn decimal_text(n: u8) -> (text: String)
    ensures
        text@ == decimal(n as nat),
{
    let mut text = String::new();
    if n >= 100 {
        text.append(digit_text(n / 100));
    }
    if n >= 10 {
        text.append(digit_text((n / 10) % 10));
    }
    text.append(digit_text(n % 10));
    proof {
        reveal_with_fuel(decimal, 3);
    }
    text
}

/// Whether one of `interfaces` is called `name`.
fn interface_exists(interfaces: &Vec<String>, name: &String) -> (taken: bool)
    ensures
        taken == name_taken(interfaces@, name@),
{
    let mut i: usize = 0;
    while i < interfaces.len()
        invariant
            i <= interfaces@.len(),
            forall|j: int| 0 <= j < i ==> interfaces@[j]@ != name@,
        decreases interfaces@.len() - i,
    {
        if interfaces[i] == *name {
            return true;
        }
        i += 1;
    }
    false
}

/// The subnet of a given number, unless the interface that would serve it
/// exists already.
pub fn subnet_for(number: u8, ip_suffix: u8, interfaces: &Vec<String>) -> (found: Option<
    SubnetIpv4Info,
>)
    ensures
        found_view(found) == free_subnet(number, ip_suffix, interfaces@),
{
    let mut device_name = "vpn_10_94_".to_owned();
    device_name.append(decimal_text(number).as_str());
    if interface_exists(interfaces, &device_name) {
        return None;
    }
    let subnet: [u8; 4] = [10u8, 94u8, number, 0u8];
    let mask: [u8; 4] = [255u8, 255u8, 255u8, 0u8];
    let node_ip: [u8; 4] = [10u8, 94u8, number, ip_suffix];
    Some(SubnetIpv4Info { subnet, mask, node_ip, interface_name: device_name })
}

/// What the search does after one number was drawn.
#[derive(Debug)]
pub enum SubnetStep {
    /// The number is free: this is its subnet.
    Found(SubnetIpv4Info),
    /// The number is taken: draw another.
    Retry,
    /// The number is taken, and it was the last try.
    GiveUp,
}

/// A `SubnetStep` with its subnet as sequences.
pub enum SubnetStepView {
    Found(SubnetIpv4InfoView),
    Retry,
    GiveUp,
}

impl View for SubnetStep {
    type V = SubnetStepView;

    open spec fn view(&self) -> SubnetStepView {
        match self {
            SubnetStep::Found(info) => SubnetStepView::Found(info@),
            SubnetStep::Retry => SubnetStepView::Retry,
            SubnetStep::GiveUp => SubnetStepView::GiveUp,
        }
    }
}

/// The step after `number` was drawn with `tries_done` tries made before it:
/// a free number ends the search with its subnet; a taken one asks for
/// another draw, unless this draw was try number `SUBNET_TRIES`.
pub open spec fn subnet_step_spec(
    tries_done: u32,
    number: u8,
    ip_suffix: u8,
    interfaces: Seq<String>,
) -> SubnetStepView {
    match free_subnet(number, ip_suffix, interfaces) {
        Some(info) => SubnetStepView::Found(info),
        None => if tries_done + 1 >= SUBNET_TRIES {
            SubnetStepView::GiveUp
        } else {
            SubnetStepView::Retry
        },
    }
}

/// Decides how the search goes on after `number` was drawn, `tries_done`
/// tries having been made before.
pub fn subnet_step(tries_done: u32, number: u8, ip_suffix: u8, interfaces: &Vec<String>) -> (step:
    SubnetStep)
    ensures
        step@ == subnet_step_spec(tries_done, number, ip_suffix, interfaces@),
{
    match subnet_for(number, ip_suffix, interfaces) {
        Some(info) => SubnetStep::Found(info),
        None => if tries_done >= SUBNET_TRIES - 1 {
            SubnetStep::GiveUp
        } else {
            SubnetStep::Retry
        },
    }
}

/// `Rng::gen_range` of the thread's generator, on the range from 0 up to,
/// not including, `high`: some number of that range. It panics on an empty
/// range.
#[verifier::external_body]
fn random_below(high: u8) -> (number: u8)
    requires
        high > 0,
    ensures
        number < high,
{
    rand::thread_rng().gen_range(0..high)
}

/// Picks a subnet at random among those that no interface serves yet.
///
/// Numbers are drawn one after the other, and `subnet_step` decides after
/// each: the first number whose interface does not exist among `interfaces`
/// gives the result, and the search fails when `SUBNET_TRIES` numbers were
/// drawn and all were taken. It cannot fail where no number is taken.
pub fn generate_interface_subnet_and_name(ip_suffix: u8, interfaces: &Vec<String>) -> (result:
    Result<SubnetIpv4Info, SubnetError>)
    ensures
        match result {
            Ok(info) => exists|number: u8|
                number < SUBNET_NUMBERS && #[trigger] free_subnet(number, ip_suffix, interfaces@)
                    == Some(info@),
            Err(e) => e == SubnetError::NoFreeSubnet && exists|number: u8|
                number < SUBNET_NUMBERS && #[trigger] free_subnet(number, ip_suffix, interfaces@)
                    is None,
        },
{
    let mut tries_done: u32 = 0;
    loop
        invariant
            tries_done < SUBNET_TRIES,
        decreases SUBNET_TRIES - tries_done,
    {
        let number = random_below(SUBNET_NUMBERS);
        match subnet_step(tries_done, number, ip_suffix, interfaces) {
            SubnetStep::Found(info) => return Ok(info),
            SubnetStep::GiveUp => return Err(SubnetError::NoFreeSubnet),
            SubnetStep::Retry => tries_done += 1,
        }
    }
}

} // verus!
