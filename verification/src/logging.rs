use vstd::prelude::*;


verus! {

/// The directory the daily log files go to, below the roaming application
/// data directory `appdata`: `<appdata>/<application name>/logs`.
pub fn get_logging_directory(appdata: &str, application_name: &str) -> (result: String)
    ensures
        result@ == appdata@ + "/"@ + application_name@ + "/logs"@,
{
    let mut directory = appdata.to_owned();
    directory.append("/");
    directory.append(application_name);
    directory.append("/logs");
    directory
}

} // verus!
