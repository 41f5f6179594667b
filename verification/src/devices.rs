//! Parsing of the device-listing tools' text output: the tab/space
//! separated table printed for attached Android devices, and the
//! column-aligned table printed for attached iOS devices.

use vstd::prelude::*;
use vstd::string::StrSliceExecFns;
use vstd::string::StringExecFns;
use crate::platform::eq_ignore_ascii_case;
use crate::platform::eq_lower;
use crate::strutil::dec_str;
use crate::strutil::lines_spec;
use crate::strutil::push_dec;
use crate::strutil::split_lines;
use crate::strutil::split_whitespace;
use crate::strutil::starts_with;
use crate::strutil::str_eq;
use crate::strutil::strip_suffix_all;
use crate::strutil::tokens_spec;
use crate::strutil::trim;
use crate::strutil::trim_end_matches_all;
use crate::strutil::trim_spec;

verus! {

/// An attached iOS device, as read from the device-listing table.
#[derive(Debug)]
pub struct IOSDevice {
    pub model: String,
    pub id: String,
    pub udid: String,
    pub provisioned: bool,
}

/// The abstract value of an `IOSDevice`: its fields as sequences.
pub struct IOSDeviceData {
    pub model: Seq<char>,
    pub id: Seq<char>,
    pub udid: Seq<char>,
    pub provisioned: bool,
}

impl View for IOSDevice {
    type V = IOSDeviceData;

    open spec fn view(&self) -> IOSDeviceData {
        IOSDeviceData {
            model: self.model@,
            id: self.id@,
            udid: self.udid@,
            provisioned: self.provisioned,
        }
    }
}

impl DeepView for IOSDevice {
    type V = IOSDeviceData;

    open spec fn deep_view(&self) -> IOSDeviceData {
        self.view()
    }
}

/// The devices attached to the host: iOS devices and Android device
/// serials.
#[derive(Debug)]
pub struct Devices {
    pub ios: Vec<IOSDevice>,
    pub android: Vec<String>,
}

/// The serial one line of the Android device listing contributes: the
/// first of exactly two white-space-separated fields, where the second
/// must read `device`.
pub open spec fn adb_serial_of_line(line: Seq<char>) -> Option<Seq<char>> {
    let t = trim_spec(line);
    if t.len() == 0 {
        None
    } else {
        let parts = tokens_spec(t);
        if parts.len() == 2 && parts[1] == "device"@ {
            Some(parts[0])
        } else {
            None
        }
    }
}

/// The serials the given listing lines contribute, in order.
pub open spec fn adb_serials_of(lines: Seq<Seq<char>>) -> Seq<Seq<char>>
    decreases lines.len(),
{
    if lines.len() == 0 {
        Seq::empty()
    } else {
        let pre = adb_serials_of(lines.drop_last());
        match adb_serial_of_line(lines.last()) {
            Some(s) => pre.push(s),
            None => pre,
        }
    }
}

/// The Android device serials in the device-listing command's output:
/// its first line is a heading and is skipped.
pub open spec fn adb_devices_spec(text: Seq<char>) -> Seq<Seq<char>> {
    let lines = lines_spec(text);
    if lines.len() <= 1 {
        Seq::empty()
    } else {
        adb_serials_of(lines.subrange(1, lines.len() as int))
    }
}

impl Devices {
    /// Where the SDK keeps the Android device-listing tool.
    pub fn adb_path(sdk_path: &str) -> (r: String)
        ensures
            r@ == sdk_path@ + "/platform-tools/adb"@,
    {
        let mut out = String::from_str(sdk_path);
        out.append("/platform-tools/adb");
        out
    }

    /// Adds every device serial found in the Android device-listing
    /// command's output.
    pub fn populate_android(&mut self, output: &str)
        ensures
            final(self).android.deep_view() == old(self).android.deep_view() + adb_devices_spec(
                output@,
            ),
            final(self).ios == old(self).ios,
    {
        let lines = split_lines(output);
        if lines.len() <= 1 {
            return ;
        }
        let ghost all = lines.deep_view();
        let mut i: usize = 1;
        while i < lines.len()
            invariant
                all == lines.deep_view(),
                1 <= i <= lines@.len(),
                lines@.len() == all.len(),
                self.android.deep_view() == old(self).android.deep_view() + adb_serials_of(
                    all.subrange(1, i as int),
                ),
                self.ios == old(self).ios,
            decreases lines@.len() - i,
        {
            proof {
                assert(all.subrange(1, i + 1).drop_last() =~= all.subrange(1, i as int));
                assert(all.subrange(1, i + 1).last() == lines@[i as int]@);
            }
            let t = trim(lines[i].as_str());
            if t.unicode_len() > 0 {
                let parts = split_whitespace(t);
                if parts.len() == 2 && str_eq(parts[1].as_str(), "device") {
                    let ghost pre = self.android.deep_view();
                    self.android.push(parts[0].clone());
                    proof {
                        assert(self.android.deep_view() =~= pre.push(parts@[0]@));
                    }
                }
            }
            i += 1;
        }
        proof {
            assert(all.subrange(1, all.len() as int) =~= all.subrange(1, lines@.len() as int));
        }
    }
}

/// The position right after the run of dashes starting at `i`: the first
/// position at or after `i` holding no dash.
pub open spec fn dash_end(s: Seq<char>, i: int) -> int
    decreases s.len() - i,
    when 0 <= i <= s.len()
{
    if i == s.len() || s[i] != '-' {
        i
    } else {
        dash_end(s, i + 1)
    }
}

proof fn lemma_dash_end_bounds(s: Seq<char>, i: int)
    requires
        0 <= i <= s.len(),
    ensures
        i <= dash_end(s, i) <= s.len(),
        forall|k: int| i <= k < dash_end(s, i) ==> s[k] == '-',
        dash_end(s, i) < s.len() ==> s[dash_end(s, i)] != '-',
    decreases s.len() - i,
{
    if !(i == s.len() || s[i] != '-') {
        lemma_dash_end_bounds(s, i + 1);
    }
}

/// The maximal runs of dashes in `s` from position `i` on, each as its
/// start and end position.
pub open spec fn dash_runs_from(s: Seq<char>, i: int) -> Seq<(int, int)>
    decreases s.len() - i,
    when 0 <= i <= s.len()
    via dash_runs_from_decreases
{
    if i >= s.len() {
        Seq::empty()
    } else if s[i] != '-' {
        dash_runs_from(s, i + 1)
    } else {
        seq![(i, dash_end(s, i))] + dash_runs_from(s, dash_end(s, i))
    }
}

#[via_fn]
proof fn dash_runs_from_decreases(s: Seq<char>, i: int) {
    if 0 <= i && i < s.len() && s[i] == '-' {
        lemma_dash_end_bounds(s, i);
    }
}

/// The column positions `(usize, usize)` pairs denote.
pub open spec fn cols_view(cols: Seq<(usize, usize)>) -> Seq<(int, int)> {
    cols.map_values(|c: (usize, usize)| (c.0 as int, c.1 as int))
}

/// Finds the column boundaries of the device table: the runs of dashes
/// in its separator line.
fn dash_runs(s: &str) -> (r: Vec<(usize, usize)>)
    ensures
        cols_view(r@) == dash_runs_from(s@, 0),
        forall|k: int| 0 <= k < r@.len() ==> (#[trigger] r@[k]).0 < r@[k].1,
{
    let n = s.unicode_len();
    let mut out: Vec<(usize, usize)> = Vec::new();
    let mut i: usize = 0;
    while i < n
        invariant
            n == s@.len(),
            0 <= i <= n,
            cols_view(out@) + dash_runs_from(s@, i as int) == dash_runs_from(s@, 0),
            forall|k: int| 0 <= k < out@.len() ==> (#[trigger] out@[k]).0 < out@[k].1,
        decreases n - i,
    {
        if s.get_char(i) == '-' {
            let start = i;
            let mut j = i + 1;
            while j < n && s.get_char(j) == '-'
                invariant
                    n == s@.len(),
                    start < j <= n,
                    forall|k: int| start <= k < j ==> s@[k] == '-',
                decreases n - j,
            {
                j += 1;
            }
            proof {
                lemma_dash_end_bounds(s@, start as int);
                if dash_end(s@, start as int) < j {
                    assert(s@[dash_end(s@, start as int)] == '-');
                }
                if dash_end(s@, start as int) > j {
                    assert(s@[j as int] == '-');
                }
                assert(dash_end(s@, start as int) == j);
            }
            let ghost pre = cols_view(out@);
            out.push((start, j));
            proof {
                assert(cols_view(out@) =~= pre.push((start as int, j as int)));
                assert(cols_view(out@) + dash_runs_from(s@, j as int) =~= dash_runs_from(s@, 0));
            }
            i = j;
        } else {
            i += 1;
            proof {
                assert(cols_view(out@) + dash_runs_from(s@, i as int) =~= dash_runs_from(s@, 0));
            }
        }
    }
    out
}

/// The text a column of the table holds on a line: the characters in the
/// column's span, clipped to the line and trimmed; empty when the line
/// ends before the column.
pub open spec fn field_of(line: Seq<char>, col: (int, int)) -> Seq<char> {
    if col.0 < line.len() {
        trim_spec(
            line.subrange(
                col.0,
                if col.1 <= line.len() {
                    col.1
                } else {
                    line.len() as int
                },
            ),
        )
    } else {
        Seq::empty()
    }
}

/// Cuts a table line into the fields the given columns delimit.
fn fields_of_line(line: &str, cols: &Vec<(usize, usize)>) -> (r: Vec<String>)
    requires
        forall|k: int| 0 <= k < cols@.len() ==> (#[trigger] cols@[k]).0 < cols@[k].1,
    ensures
        r.deep_view() == cols_view(cols@).map_values(|c: (int, int)| field_of(line@, c)),
{
    let n = line.unicode_len();
    let mut out: Vec<String> = Vec::new();
    let mut k: usize = 0;
    while k < cols.len()
        invariant
            n == line@.len(),
            0 <= k <= cols@.len(),
            forall|q: int| 0 <= q < cols@.len() ==> (#[trigger] cols@[q]).0 < cols@[q].1,
            out.deep_view() == cols_view(cols@).subrange(0, k as int).map_values(
                |c: (int, int)| field_of(line@, c),
            ),
        decreases cols@.len() - k,
    {
        let (start, end) = cols[k];
        let ghost pre = out.deep_view();
        if start < n {
            let actual_end = if end <= n {
                end
            } else {
                n
            };
            out.push(String::from_str(trim(line.substring_char(start, actual_end))));
        } else {
            out.push(String::new());
        }
        proof {
            assert(out.deep_view() =~= pre.push(field_of(line@, cols_view(cols@)[k as int])));
            assert(cols_view(cols@).subrange(0, k + 1).map_values(
                |c: (int, int)| field_of(line@, c),
            ) =~= cols_view(cols@).subrange(0, k as int).map_values(
                |c: (int, int)| field_of(line@, c),
            ).push(field_of(line@, cols_view(cols@)[k as int])));
        }
        k += 1;
    }
    proof {
        assert(cols_view(cols@).subrange(0, cols@.len() as int) =~= cols_view(cols@));
        assert(out.deep_view() =~= cols_view(cols@).map_values(|c: (int, int)| field_of(line@, c)));
    }
    out
}

/// The device one line of the iOS table contributes, given the table's
/// columns: only rows whose name column reads `iPhone` (in any case) and
/// whose state column starts with `available` count; the identifier is
/// the hostname with its domain suffix stripped.
pub open spec fn ios_device_of_line(line: Seq<char>, cols: Seq<(int, int)>) -> Option<
    IOSDeviceData,
> {
    if trim_spec(line).len() == 0 {
        None
    } else {
        let fields = cols.map_values(|c: (int, int)| field_of(line, c));
        if fields.len() < 4 {
            None
        } else if !eq_ignore_ascii_case(fields[0], "iphone"@) {
            None
        } else if !"available"@.is_prefix_of(fields[3]) {
            None
        } else {
            Some(
                IOSDeviceData {
                    model: if fields.len() > 4 {
                        fields[4]
                    } else {
                        "unknown"@
                    },
                    id: strip_suffix_all(fields[1], ".coredevice.local"@),
                    udid: fields[2],
                    provisioned: false,
                },
            )
        }
    }
}

/// The devices the given table lines contribute, in order.
pub open spec fn ios_devices_of_lines(lines: Seq<Seq<char>>, cols: Seq<(int, int)>) -> Seq<
    IOSDeviceData,
>
    decreases lines.len(),
{
    if lines.len() == 0 {
        Seq::empty()
    } else {
        let pre = ios_devices_of_lines(lines.drop_last(), cols);
        match ios_device_of_line(lines.last(), cols) {
            Some(d) => pre.push(d),
            None => pre,
        }
    }
}

/// The iOS devices in the device-listing command's output: the first
/// line is a heading, the second holds the dashed column separators, and
/// the rest are device rows.
pub open spec fn ios_devices_spec(text: Seq<char>) -> Seq<IOSDeviceData> {
    let lines = lines_spec(text);
    if lines.len() < 2 {
        Seq::empty()
    } else {
        ios_devices_of_lines(
            lines.subrange(2, lines.len() as int),
            dash_runs_from(lines[1], 0),
        )
    }
}

impl Devices {
    /// Adds every iPhone found in the iOS device-listing command's
    /// output.
    pub fn populate_ios(&mut self, output: &str)
        ensures
            final(self).ios.deep_view() == old(self).ios.deep_view() + ios_devices_spec(output@),
            final(self).android == old(self).android,
    {
        let lines = split_lines(output);
        if lines.len() < 2 {
            return ;
        }
        let cols = dash_runs(lines[1].as_str());
        let ghost all = lines.deep_view();
        let ghost ccols = cols_view(cols@);
        let mut i: usize = 2;
        while i < lines.len()
            invariant
                all == lines.deep_view(),
                ccols == cols_view(cols@),
                ccols == dash_runs_from(all[1], 0),
                forall|k: int| 0 <= k < cols@.len() ==> (#[trigger] cols@[k]).0 < cols@[k].1,
                2 <= i <= lines@.len(),
                lines@.len() == all.len(),
                self.ios.deep_view() == old(self).ios.deep_view() + ios_devices_of_lines(
                    all.subrange(2, i as int),
                    ccols,
                ),
                self.android == old(self).android,
            decreases lines@.len() - i,
        {
            proof {
                assert(all.subrange(2, i + 1).drop_last() =~= all.subrange(2, i as int));
                assert(all.subrange(2, i + 1).last() == lines@[i as int]@);
            }
            let line = lines[i].as_str();
            let t = trim(line);
            if t.unicode_len() > 0 {
                let fields = fields_of_line(line, &cols);
                if fields.len() >= 4 && eq_lower(fields[0].as_str(), "iphone") && starts_with(
                    fields[3].as_str(),
                    "available",
                ) {
                    let id = String::from_str(
                        trim_end_matches_all(fields[1].as_str(), ".coredevice.local"),
                    );
                    let udid = fields[2].clone();
                    let model = if fields.len() > 4 {
                        fields[4].clone()
                    } else {
                        String::from_str("unknown")
                    };
                    let ghost pre = self.ios.deep_view();
                    let dev = IOSDevice { model, id, udid, provisioned: false };
                    proof {
                        assert(ios_device_of_line(lines@[i as int]@, ccols) == Some(dev@));
                    }
                    self.ios.push(dev);
                    proof {
                        assert(self.ios.deep_view() =~= pre.push(
                            ios_device_of_line(lines@[i as int]@, ccols)->0,
                        ));
                    }
                }
            }
            i += 1;
        }
        proof {
            assert(all.subrange(2, all.len() as int) =~= all.subrange(2, lines@.len() as int));
        }
    }
}

/// How a boolean is printed.
pub open spec fn bool_str(b: bool) -> Seq<char> {
    if b {
        "true"@
    } else {
        "false"@
    }
}

/// The listing text for the Android serials, one numbered block each.
pub open spec fn android_entries_str(devs: Seq<Seq<char>>) -> Seq<char>
    decreases devs.len(),
{
    if devs.len() == 0 {
        Seq::empty()
    } else {
        android_entries_str(devs.drop_last()) + "\nDevice "@ + dec_str(devs.len() as int) + ":\n"@
            + devs.last() + "\n"@
    }
}

/// The listing text for the iOS devices, one numbered block each.
pub open spec fn ios_entries_str(devs: Seq<IOSDeviceData>) -> Seq<char>
    decreases devs.len(),
{
    if devs.len() == 0 {
        Seq::empty()
    } else {
        ios_entries_str(devs.drop_last()) + "\nDevice "@ + dec_str(devs.len() as int)
            + ":\nModel: "@ + devs.last().model + "\nid: "@ + devs.last().id + "\nudid: "@
            + devs.last().udid + "\nprovisioned: "@ + bool_str(devs.last().provisioned) + "\n"@
    }
}

/// The whole device listing: a heading, then the Android and iOS
/// sections for whichever platforms have devices, or a line saying none
/// are connected.
pub open spec fn devices_listing(ios: Seq<IOSDeviceData>, android: Seq<Seq<char>>) -> Seq<char> {
    if ios.len() == 0 && android.len() == 0 {
        "\nCargo Piston Device List:\n\nNo devices connected\n"@
    } else {
        "\nCargo Piston Device List:\n\n"@ + (if android.len() > 0 {
            "Android:\n"@ + android_entries_str(android) + (if ios.len() > 0 {
                "\n"@
            } else {
                Seq::<char>::empty()
            })
        } else {
            Seq::<char>::empty()
        }) + (if ios.len() > 0 {
            "iOS:\n"@ + ios_entries_str(ios)
        } else {
            Seq::<char>::empty()
        })
    }
}

impl Devices {
    /// The text the device listing prints.
    #[verifier::rlimit(50)]
    pub fn format_devices(&self) -> (r: String)
        ensures
            r@ == devices_listing(self.ios.deep_view(), self.android.deep_view()),
    {
        let mut out = String::new();
        if self.ios.len() == 0 && self.android.len() == 0 {
            out.append("\nCargo Piston Device List:\n\nNo devices connected\n");
            proof {
                assert(out@ =~= devices_listing(self.ios.deep_view(), self.android.deep_view()));
            }
            return out;
        }
        out.append("\nCargo Piston Device List:\n\n");
        let ghost head = out@;
        let ghost androids = self.android.deep_view();
        let ghost ioses = self.ios.deep_view();
        if self.android.len() > 0 {
            out.append("Android:\n");
            let mut i: usize = 0;
            while i < self.android.len()
                invariant
                    androids == self.android.deep_view(),
                    ioses == self.ios.deep_view(),
                    head == "\nCargo Piston Device List:\n\n"@,
                    0 <= i <= androids.len(),
                    out@ == head + "Android:\n"@ + android_entries_str(
                        androids.subrange(0, i as int),
                    ),
                decreases androids.len() - i,
            {
                out.append("\nDevice ");
                push_dec(&mut out, (i + 1) as u64);
                out.append(":\n");
                out.append(self.android[i].as_str());
                out.append("\n");
                proof {
                    assert(androids.subrange(0, i + 1).drop_last() =~= androids.subrange(
                        0,
                        i as int,
                    ));
                    assert(androids.subrange(0, i + 1).last() == androids[i as int]);
                    assert(out@ =~= head + "Android:\n"@ + android_entries_str(
                        androids.subrange(0, i + 1),
                    ));
                }
                i += 1;
            }
            proof {
                assert(androids.subrange(0, androids.len() as int) =~= androids);
            }
            if self.ios.len() > 0 {
                out.append("\n");
            }
        }
        if self.ios.len() > 0 {
            let ghost mid = out@;
            out.append("iOS:\n");
            let mut i: usize = 0;
            while i < self.ios.len()
                invariant
                    androids == self.android.deep_view(),
                    ioses == self.ios.deep_view(),
                    mid == out@.subrange(0, mid.len() as int),
                    0 <= i <= ioses.len(),
                    out@ == mid + "iOS:\n"@ + ios_entries_str(ioses.subrange(0, i as int)),
                decreases ioses.len() - i,
            {
                out.append("\nDevice ");
                push_dec(&mut out, (i + 1) as u64);
                out.append(":\nModel: ");
                out.append(self.ios[i].model.as_str());
                out.append("\nid: ");
                out.append(self.ios[i].id.as_str());
                out.append("\nudid: ");
                out.append(self.ios[i].udid.as_str());
                out.append("\nprovisioned: ");
                if self.ios[i].provisioned {
                    out.append("true");
                } else {
                    out.append("false");
                }
                out.append("\n");
                proof {
                    assert(ioses.subrange(0, i + 1).drop_last() =~= ioses.subrange(0, i as int));
                    assert(ioses.subrange(0, i + 1).last() == ioses[i as int]);
                    assert(out@ =~= mid + "iOS:\n"@ + ios_entries_str(ioses.subrange(0, i + 1)));
                }
                i += 1;
            }
            proof {
                assert(ioses.subrange(0, ioses.len() as int) =~= ioses);
            }
        }
        proof {
            assert(out@ =~= devices_listing(self.ios.deep_view(), self.android.deep_view()));
        }
        out
    }
}

} // verus!
