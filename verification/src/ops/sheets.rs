//! Spreadsheet conversions: CSV ⇄ XLSX, via python3 + openpyxl.
//!
//! openpyxl reads/writes .xlsx and the stdlib `csv` module handles the CSV
//! side. One small script handles both directions, keyed on the output
//! extension. (Old binary .xls isn't supported: openpyxl can't read it.)

use super::{
    args_view, one_stage, push_lit, stage_spec, stages_view, JobParams, Op, OpId, Stage,
    StageSpec, Tool,
};
use crate::probe::ProbeResult;
use crate::text::owned;
use vstd::prelude::*;

verus! {

/// The converter, run as `python3 -c SCRIPT <input> <output>`.
pub const SCRIPT: &'static str = r#"import sys, csv
inp, out = sys.argv[1], sys.argv[2]
if out.lower().endswith('.xlsx'):
    from openpyxl import Workbook
    wb = Workbook(); ws = wb.active
    with open(inp, newline='', encoding='utf-8-sig') as f:
        for row in csv.reader(f):
            ws.append(row)
    wb.save(out)
else:
    from openpyxl import load_workbook
    wb = load_workbook(inp, read_only=True, data_only=True)
    ws = wb.active
    with open(out, 'w', newline='', encoding='utf-8') as f:
        w = csv.writer(f, lineterminator='\n')
        for row in ws.iter_rows(values_only=True):
            w.writerow(['' if c is None else c for c in row])
"#;

/// One python stage running the converter on `input` → `output`.
pub open spec fn sheet_stages(input: Seq<char>, output: Seq<char>) -> Seq<StageSpec> {
    seq![stage_spec(Tool::Python, seq!["-c"@, SCRIPT@, input, output], 100)]
}

fn stage(input: &str, output: &str) -> (r: Vec<Stage>)
    ensures
        stages_view(r@) == sheet_stages(input@, output@),
{
    let mut args: Vec<String> = Vec::new();
    push_lit(&mut args, "-c");
    push_lit(&mut args, SCRIPT);
    push_lit(&mut args, input);
    push_lit(&mut args, output);
    assert(args_view(args@) =~= seq!["-c"@, SCRIPT@, input@, output@]);
    let r = one_stage(Stage::python(args, 100));
    assert(stages_view(r@) =~= sheet_stages(input@, output@));
    r
}

/// CSV → XLSX.
pub struct SheetToXlsx;

impl Op for SheetToXlsx {
    open spec fn kind(&self) -> OpId {
        OpId::SheetToXlsx
    }

    fn id(&self) -> (r: OpId) {
        OpId::SheetToXlsx
    }

    fn label(&self) -> (r: &'static str) {
        "Convert to XLSX"
    }

    fn output_suffix(&self, _params: &JobParams) -> (r: String) {
        String::new()
    }

    fn output_ext(&self, _input: &str, _params: &JobParams) -> (r: String) {
        owned("xlsx")
    }

    fn build_stages(
        &self,
        input: &str,
        output: &str,
        _workdir: &str,
        _probe: &ProbeResult,
        _params: &JobParams,
    ) -> (r: Vec<Stage>) {
        stage(input, output)
    }
}

/// XLSX → CSV.
pub struct SheetToCsv;

impl Op for SheetToCsv {
    open spec fn kind(&self) -> OpId {
        OpId::SheetToCsv
    }

    fn id(&self) -> (r: OpId) {
        OpId::SheetToCsv
    }

    fn label(&self) -> (r: &'static str) {
        "Convert to CSV"
    }

    fn output_suffix(&self, _params: &JobParams) -> (r: String) {
        String::new()
    }

    fn output_ext(&self, _input: &str, _params: &JobParams) -> (r: String) {
        owned("csv")
    }

    fn build_stages(
        &self,
        input: &str,
        output: &str,
        _workdir: &str,
        _probe: &ProbeResult,
        _params: &JobParams,
    ) -> (r: Vec<Stage>) {
        stage(input, output)
    }
}

} // verus!
