use note_store::delete::delete_note;
use note_store::load::load_notes;
use note_store::protocol::{DirEntry, Request, Response, Step};
use note_store::save::save_note;

fn failed(message: &str) -> Result<(), String> {
    Err(String::from(message))
}

fn entry(name: &str, is_file: bool) -> Response {
    Response::Entry(Some(Ok(DirEntry { name: String::from(name), is_file })))
}

fn text(content: &str) -> Response {
    Response::Text(Ok(String::from(content)))
}

fn write_of(name: &str, content: &str) -> Request {
    Request::WriteFile { name: String::from(name), content: String::from(content) }
}

#[test]
fn save_first_asks_for_the_directory() {
    assert_eq!(save_note("abc", "{}").request(), Request::DirExists);
}

#[test]
fn save_writes_at_once_into_an_existing_directory() {
    let task = save_note("abc", "{\"x\":1}");
    let Step::Next(task) = task.resume(Response::Exists(true)) else { panic!("ended early") };
    assert_eq!(task.request(), write_of("abc.json", "{\"x\":1}"));
    assert_eq!(task.resume(Response::Done(Ok(()))), Step::Done(Ok(())));
}

#[test]
fn save_creates_a_missing_directory_before_writing() {
    let task = save_note("abc", "text");
    let Step::Next(task) = task.resume(Response::Exists(false)) else { panic!("ended early") };
    assert_eq!(task.request(), Request::CreateDir);
    let Step::Next(task) = task.resume(Response::Done(Ok(()))) else { panic!("ended early") };
    assert_eq!(task.request(), write_of("abc.json", "text"));
    assert_eq!(task.resume(Response::Done(Ok(()))), Step::Done(Ok(())));
}

#[test]
fn save_gives_up_when_the_directory_cannot_be_created() {
    let task = save_note("abc", "text");
    let Step::Next(task) = task.resume(Response::Exists(false)) else { panic!("ended early") };
    assert_eq!(
        task.resume(Response::Done(failed("permission denied"))),
        Step::Done(failed("permission denied"))
    );
}

#[test]
fn save_reports_a_failed_write() {
    let task = save_note("abc", "text");
    let Step::Next(task) = task.resume(Response::Exists(true)) else { panic!("ended early") };
    assert_eq!(
        task.resume(Response::Done(failed("no space left on device"))),
        Step::Done(failed("no space left on device"))
    );
}

#[test]
fn save_keeps_content_verbatim() {
    let content = "  line one\n\tline two\r\n{\"k\": \"é\"}  ";
    let task = save_note("n", content);
    let Step::Next(task) = task.resume(Response::Exists(true)) else { panic!("ended early") };
    assert_eq!(task.request(), write_of("n.json", content));
}

#[test]
fn save_ignores_what_does_not_answer_its_request() {
    let task = save_note("abc", "text");
    let Step::Next(task) = task.resume(Response::Done(Ok(()))) else { panic!("ended early") };
    assert_eq!(task.request(), Request::DirExists);
    let Step::Next(task) = task.resume(text("stray")) else { panic!("ended early") };
    assert_eq!(task.request(), Request::DirExists);
    let Step::Next(task) = task.resume(Response::Exists(true)) else { panic!("ended early") };
    let Step::Next(task) = task.resume(Response::Exists(true)) else { panic!("ended early") };
    assert_eq!(task.request(), write_of("abc.json", "text"));
}

#[test]
fn load_first_asks_for_the_directory() {
    assert_eq!(load_notes().request(), Request::DirExists);
}

#[test]
fn load_of_a_missing_directory_creates_it_and_is_empty() {
    let task = load_notes();
    let Step::Next(task) = task.resume(Response::Exists(false)) else { panic!("ended early") };
    assert_eq!(task.request(), Request::CreateDir);
    assert_eq!(task.resume(Response::Done(Ok(()))), Step::Done(Ok(Vec::new())));
}

#[test]
fn load_gives_up_when_the_directory_cannot_be_created() {
    let task = load_notes();
    let Step::Next(task) = task.resume(Response::Exists(false)) else { panic!("ended early") };
    assert_eq!(
        task.resume(Response::Done(failed("read-only file system"))),
        Step::Done(Err(String::from("read-only file system")))
    );
}

#[test]
fn load_gives_up_when_the_directory_cannot_be_opened() {
    let task = load_notes();
    let Step::Next(task) = task.resume(Response::Exists(true)) else { panic!("ended early") };
    assert_eq!(task.request(), Request::OpenDir);
    assert_eq!(
        task.resume(Response::Done(failed("not a directory"))),
        Step::Done(Err(String::from("not a directory")))
    );
}

#[test]
fn load_of_an_empty_directory_is_empty() {
    let task = load_notes();
    let Step::Next(task) = task.resume(Response::Exists(true)) else { panic!("ended early") };
    let Step::Next(task) = task.resume(Response::Done(Ok(()))) else { panic!("ended early") };
    assert_eq!(task.request(), Request::NextEntry);
    assert_eq!(task.resume(Response::Entry(None)), Step::Done(Ok(Vec::new())));
}

#[test]
fn load_reads_notes_and_passes_over_the_rest() {
    let task = load_notes();
    let Step::Next(task) = task.resume(Response::Exists(true)) else { panic!("ended early") };
    let Step::Next(task) = task.resume(Response::Done(Ok(()))) else { panic!("ended early") };
    let Step::Next(task) = task.resume(entry("b.json", true)) else { panic!("ended early") };
    assert_eq!(task.request(), Request::ReadEntry);
    let Step::Next(task) = task.resume(text("second")) else { panic!("ended early") };
    assert_eq!(task.request(), Request::NextEntry);
    let Step::Next(task) = task.resume(entry("readme.txt", true)) else { panic!("ended early") };
    assert_eq!(task.request(), Request::NextEntry);
    let Step::Next(task) = task.resume(entry("archive.json", false)) else { panic!("ended early") };
    assert_eq!(task.request(), Request::NextEntry);
    let Step::Next(task) = task.resume(entry("a.json", true)) else { panic!("ended early") };
    assert_eq!(task.request(), Request::ReadEntry);
    let Step::Next(task) = task.resume(text("first")) else { panic!("ended early") };
    assert_eq!(
        task.resume(Response::Entry(None)),
        Step::Done(Ok(vec![String::from("second"), String::from("first")]))
    );
}

#[test]
fn load_gives_up_on_an_entry_that_cannot_be_had() {
    let task = load_notes();
    let Step::Next(task) = task.resume(Response::Exists(true)) else { panic!("ended early") };
    let Step::Next(task) = task.resume(Response::Done(Ok(()))) else { panic!("ended early") };
    let Step::Next(task) = task.resume(entry("a.json", true)) else { panic!("ended early") };
    let Step::Next(task) = task.resume(text("first")) else { panic!("ended early") };
    assert_eq!(
        task.resume(Response::Entry(Some(Err(String::from("input/output error"))))),
        Step::Done(Err(String::from("input/output error")))
    );
}

#[test]
fn load_gives_up_on_a_note_that_cannot_be_read() {
    let task = load_notes();
    let Step::Next(task) = task.resume(Response::Exists(true)) else { panic!("ended early") };
    let Step::Next(task) = task.resume(Response::Done(Ok(()))) else { panic!("ended early") };
    let Step::Next(task) = task.resume(entry("a.json", true)) else { panic!("ended early") };
    let Step::Next(task) = task.resume(text("first")) else { panic!("ended early") };
    let Step::Next(task) = task.resume(entry("b.json", true)) else { panic!("ended early") };
    assert_eq!(
        task.resume(Response::Text(Err(String::from("stream did not contain valid UTF-8")))),
        Step::Done(Err(String::from("stream did not contain valid UTF-8")))
    );
}

#[test]
fn load_ignores_what_does_not_answer_its_request() {
    let task = load_notes();
    let Step::Next(task) = task.resume(Response::Exists(true)) else { panic!("ended early") };
    let Step::Next(task) = task.resume(Response::Exists(true)) else { panic!("ended early") };
    assert_eq!(task.request(), Request::OpenDir);
    let Step::Next(task) = task.resume(Response::Done(Ok(()))) else { panic!("ended early") };
    let Step::Next(task) = task.resume(text("stray")) else { panic!("ended early") };
    assert_eq!(task.request(), Request::NextEntry);
    let Step::Next(task) = task.resume(entry("a.json", true)) else { panic!("ended early") };
    let Step::Next(task) = task.resume(Response::Entry(None)) else { panic!("ended early") };
    assert_eq!(task.request(), Request::ReadEntry);
    let Step::Next(task) = task.resume(text("only")) else { panic!("ended early") };
    assert_eq!(task.resume(Response::Entry(None)), Step::Done(Ok(vec![String::from("only")])));
}

#[test]
fn delete_first_asks_for_the_file() {
    assert_eq!(
        delete_note("abc").request(),
        Request::FileExists { name: String::from("abc.json") }
    );
}

#[test]
fn delete_of_a_missing_file_succeeds_without_removing() {
    assert_eq!(delete_note("abc").resume(Response::Exists(false)), Step::Done(Ok(())));
}

#[test]
fn delete_removes_an_existing_file() {
    let task = delete_note("abc");
    let Step::Next(task) = task.resume(Response::Exists(true)) else { panic!("ended early") };
    assert_eq!(task.request(), Request::RemoveFile { name: String::from("abc.json") });
    assert_eq!(task.resume(Response::Done(Ok(()))), Step::Done(Ok(())));
}

#[test]
fn delete_reports_a_failed_removal() {
    let task = delete_note("abc");
    let Step::Next(task) = task.resume(Response::Exists(true)) else { panic!("ended early") };
    assert_eq!(
        task.resume(Response::Done(failed("permission denied"))),
        Step::Done(failed("permission denied"))
    );
}

#[test]
fn delete_ignores_what_does_not_answer_its_request() {
    let task = delete_note("abc");
    let Step::Next(task) = task.resume(Response::Done(Ok(()))) else { panic!("ended early") };
    assert_eq!(task.request(), Request::FileExists { name: String::from("abc.json") });
    let Step::Next(task) = task.resume(Response::Exists(true)) else { panic!("ended early") };
    let Step::Next(task) = task.resume(Response::Exists(false)) else { panic!("ended early") };
    assert_eq!(task.request(), Request::RemoveFile { name: String::from("abc.json") });
}
