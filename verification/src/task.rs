//! The task model: one variant per kind of work, and the label under which a
//! task is recorded.
use vstd::prelude::*;
use vstd::string::*;
use crate::text::decimal_digits;
use crate::text::render_decimal;

verus! {

/// One unit of pipeline work. A task is only read once it is queued.
///
/// The numbers of a `MathCalc` are held as the bit patterns of IEEE 754
/// doubles (`f64::to_bits`); the arguments of a `Custom` task keep the order
/// in which they were given.
#[derive(Debug, Clone)]
#[allow(inconsistent_fields)]
pub enum Task {
    Print(String),
    SystemCheck,
    TimeCheck,
    MathCalc { operation: String, args: Vec<u64> },
    NetworkRequest { method: String, url: String, data: Option<String> },
    PortScan { host: String, ports: Vec<u16> },
    VulnScan { url: String },
    CryptoHash { algorithm: String, data: String },
    Loop { iterations: u32, operation: String },
    Custom { name: String, args: Vec<(String, String)> },
}

/// A task as contracts see it.
#[allow(inconsistent_fields)]
pub enum TaskModel {
    Print(Seq<char>),
    SystemCheck,
    TimeCheck,
    MathCalc { operation: Seq<char>, args: Seq<u64> },
    NetworkRequest { method: Seq<char>, url: Seq<char>, data: Option<Seq<char>> },
    PortScan { host: Seq<char>, ports: Seq<u16> },
    VulnScan { url: Seq<char> },
    CryptoHash { algorithm: Seq<char>, data: Seq<char> },
    Loop { iterations: u32, operation: Seq<char> },
    Custom { name: Seq<char>, args: Seq<(Seq<char>, Seq<char>)> },
}

impl View for Task {
    type V = TaskModel;

    open spec fn view(&self) -> TaskModel {
        match self {
            Task::Print(text) => TaskModel::Print(text@),
            Task::SystemCheck => TaskModel::SystemCheck,
            Task::TimeCheck => TaskModel::TimeCheck,
            Task::MathCalc { operation, args } => TaskModel::MathCalc {
                operation: operation@,
                args: args@,
            },
            Task::NetworkRequest { method, url, data } => TaskModel::NetworkRequest {
                method: method@,
                url: url@,
                data: data.deep_view(),
            },
            Task::PortScan { host, ports } => TaskModel::PortScan { host: host@, ports: ports@ },
            Task::VulnScan { url } => TaskModel::VulnScan { url: url@ },
            Task::CryptoHash { algorithm, data } => TaskModel::CryptoHash {
                algorithm: algorithm@,
                data: data@,
            },
            Task::Loop { iterations, operation } => TaskModel::Loop {
                iterations: *iterations,
                operation: operation@,
            },
            Task::Custom { name, args } => TaskModel::Custom {
                name: name@,
                args: args.deep_view(),
            },
        }
    }
}

impl DeepView for Task {
    type V = TaskModel;

    open spec fn deep_view(&self) -> TaskModel {
        self@
    }
}

/// `s` between double quotes. Nothing inside is escaped.
pub open spec fn quoted(s: Seq<char>) -> Seq<char> {
    "\""@ + s + "\""@
}

/// The items in a row, with a comma and a space between neighbours.
pub open spec fn comma_list(items: Seq<Seq<char>>) -> Seq<char>
    decreases items.len(),
{
    if items.len() == 0 {
        Seq::<char>::empty()
    } else if items.len() == 1 {
        items[0]
    } else {
        comma_list(items.drop_last()) + ", "@ + items.last()
    }
}

/// How one argument of a `Custom` task is shown: key, colon, value.
pub open spec fn pair_text(pair: (Seq<char>, Seq<char>)) -> Seq<char> {
    quoted(pair.0) + ": "@ + quoted(pair.1)
}

/// How the optional body of a request is shown.
pub open spec fn optional_text(data: Option<Seq<char>>) -> Seq<char> {
    match data {
        Some(d) => "Some("@ + quoted(d) + ")"@,
        None => "None"@,
    }
}

/// The label of a task: its variant's name and every field, in the order of
/// declaration. It depends on the task's value alone.
pub open spec fn task_label(task: TaskModel) -> Seq<char> {
    match task {
        TaskModel::Print(text) => "Print("@ + quoted(text) + ")"@,
        TaskModel::SystemCheck => "SystemCheck"@,
        TaskModel::TimeCheck => "TimeCheck"@,
        TaskModel::MathCalc { operation, args } => "MathCalc { operation: "@ + quoted(operation)
            + ", args: ["@ + comma_list(args.map_values(|x: u64| decimal_digits(x as nat)))
            + "] }"@,
        TaskModel::NetworkRequest { method, url, data } => "NetworkRequest { method: "@ + quoted(
            method,
        ) + ", url: "@ + quoted(url) + ", data: "@ + optional_text(data) + " }"@,
        TaskModel::PortScan { host, ports } => "PortScan { host: "@ + quoted(host)
            + ", ports: ["@ + comma_list(ports.map_values(|x: u16| decimal_digits(x as nat)))
            + "] }"@,
        TaskModel::VulnScan { url } => "VulnScan { url: "@ + quoted(url) + " }"@,
        TaskModel::CryptoHash { algorithm, data } => "CryptoHash { algorithm: "@ + quoted(
            algorithm,
        ) + ", data: "@ + quoted(data) + " }"@,
        TaskModel::Loop { iterations, operation } => "Loop { iterations: "@ + decimal_digits(
            iterations as nat,
        ) + ", operation: "@ + quoted(operation) + " }"@,
        TaskModel::Custom { name, args } => "Custom { name: "@ + quoted(name) + ", args: {"@
            + comma_list(args.map_values(|p: (Seq<char>, Seq<char>)| pair_text(p))) + "} }"@,
    }
}

/// Appends `s` between double quotes to `out`.
fn push_quoted(out: &mut String, s: &str)
    ensures
        final(out)@ == old(out)@ + quoted(s@),
{
    out.append("\"");
    out.append(s);
    out.append("\"");
    assert(out@ =~= old(out)@ + quoted(s@));
}

/// Appends the decimal renderings of `xs`, separated by commas, to `out`.
fn push_u64_list(out: &mut String, xs: &Vec<u64>)
    ensures
        final(out)@ == old(out)@ + comma_list(xs@.map_values(|x: u64| decimal_digits(x as nat))),
{
    let ghost items = xs@.map_values(|x: u64| decimal_digits(x as nat));
    let mut i: usize = 0;
    while i < xs.len()
        invariant
            i <= xs.len(),
            items == xs@.map_values(|x: u64| decimal_digits(x as nat)),
            out@ == old(out)@ + comma_list(items.take(i as int)),
        decreases xs.len() - i,
    {
        let d = render_decimal(xs[i] as u128);
        proof {
            assert(items.take(i + 1).drop_last() =~= items.take(i as int));
            assert(items.take(i + 1).last() == d@);
        }
        if i > 0 {
            out.append(", ");
        }
        out.append(d.as_str());
        assert(out@ =~= old(out)@ + comma_list(items.take(i + 1)));
        i = i + 1;
    }
    assert(items.take(i as int) =~= items);
}

/// Appends the decimal renderings of `xs`, separated by commas, to `out`.
fn push_u16_list(out: &mut String, xs: &Vec<u16>)
    ensures
        final(out)@ == old(out)@ + comma_list(xs@.map_values(|x: u16| decimal_digits(x as nat))),
{
    let ghost items = xs@.map_values(|x: u16| decimal_digits(x as nat));
    let mut i: usize = 0;
    while i < xs.len()
        invariant
            i <= xs.len(),
            items == xs@.map_values(|x: u16| decimal_digits(x as nat)),
            out@ == old(out)@ + comma_list(items.take(i as int)),
        decreases xs.len() - i,
    {
        let d = render_decimal(xs[i] as u128);
        proof {
            assert(items.take(i + 1).drop_last() =~= items.take(i as int));
            assert(items.take(i + 1).last() == d@);
        }
        if i > 0 {
            out.append(", ");
        }
        out.append(d.as_str());
        assert(out@ =~= old(out)@ + comma_list(items.take(i + 1)));
        i = i + 1;
    }
    assert(items.take(i as int) =~= items);
}

/// Appends the key and value pairs of `xs`, separated by commas, to `out`.
fn push_pairs(out: &mut String, xs: &Vec<(String, String)>)
    ensures
        final(out)@ == old(out)@ + comma_list(
            xs.deep_view().map_values(|p: (Seq<char>, Seq<char>)| pair_text(p)),
        ),
{
    let ghost items = xs.deep_view().map_values(|p: (Seq<char>, Seq<char>)| pair_text(p));
    let mut i: usize = 0;
    while i < xs.len()
        invariant
            i <= xs.len(),
            items == xs.deep_view().map_values(|p: (Seq<char>, Seq<char>)| pair_text(p)),
            items.len() == xs.len(),
            out@ == old(out)@ + comma_list(items.take(i as int)),
        decreases xs.len() - i,
    {
        let ghost before = out@;
        if i > 0 {
            out.append(", ");
        }
        let ghost mid = out@;
        push_quoted(out, xs[i].0.as_str());
        out.append(": ");
        push_quoted(out, xs[i].1.as_str());
        proof {
            assert(items.take(i + 1).drop_last() =~= items.take(i as int));
            assert(xs.deep_view()[i as int] == (xs[i as int].0@, xs[i as int].1@));
            assert(items.take(i + 1).last() == pair_text((xs[i as int].0@, xs[i as int].1@)));
            assert(out@ =~= mid + pair_text((xs[i as int].0@, xs[i as int].1@)));
            assert(out@ =~= old(out)@ + comma_list(items.take(i + 1)));
        }
        i = i + 1;
    }
    assert(items.take(i as int) =~= items);
}

impl Task {
    /// The label under which the task is recorded.
    pub fn label(&self) -> (r: String)
        ensures
            r@ == task_label(self@),
    {
        let mut out = String::new();
        match self {
            Task::Print(text) => {
                out.append("Print(");
                push_quoted(&mut out, text.as_str());
                out.append(")");
            },
            Task::SystemCheck => {
                out.append("SystemCheck");
            },
            Task::TimeCheck => {
                out.append("TimeCheck");
            },
            Task::MathCalc { operation, args } => {
                out.append("MathCalc { operation: ");
                push_quoted(&mut out, operation.as_str());
                out.append(", args: [");
                push_u64_list(&mut out, args);
                out.append("] }");
            },
            Task::NetworkRequest { method, url, data } => {
                out.append("NetworkRequest { method: ");
                push_quoted(&mut out, method.as_str());
                out.append(", url: ");
                push_quoted(&mut out, url.as_str());
                out.append(", data: ");
                match data {
                    Some(d) => {
                        out.append("Some(");
                        push_quoted(&mut out, d.as_str());
                        out.append(")");
                    },
                    None => {
                        out.append("None");
                    },
                }
                out.append(" }");
            },
            Task::PortScan { host, ports } => {
                out.append("PortScan { host: ");
                push_quoted(&mut out, host.as_str());
                out.append(", ports: [");
                push_u16_list(&mut out, ports);
                out.append("] }");
            },
            Task::VulnScan { url } => {
                out.append("VulnScan { url: ");
                push_quoted(&mut out, url.as_str());
                out.append(" }");
            },
            Task::CryptoHash { algorithm, data } => {
                out.append("CryptoHash { algorithm: ");
                push_quoted(&mut out, algorithm.as_str());
                out.append(", data: ");
                push_quoted(&mut out, data.as_str());
                out.append(" }");
            },
            Task::Loop { iterations, operation } => {
                out.append("Loop { iterations: ");
                let n = render_decimal(*iterations as u128);
                out.append(n.as_str());
                out.append(", operation: ");
                push_quoted(&mut out, operation.as_str());
                out.append(" }");
            },
            Task::Custom { name, args } => {
                out.append("Custom { name: ");
                push_quoted(&mut out, name.as_str());
                out.append(", args: {");
                push_pairs(&mut out, args);
                out.append("} }");
            },
        }
        assert(out@ =~= task_label(self@));
        out
    }
}

} // verus!
