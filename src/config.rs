use vstd::prelude::*;
use crate::error::AnnotateError;

verus! {

/// The kind of pretrained model, which decides how its configuration and
/// its tokenizer vocabulary are read.
#[derive(Debug, Clone, Copy, PartialEq, Eq, Structural)]
pub enum PretrainModelType {
    Bert,
    XlmRoberta,
}

/// The `[input]` section: where the tokenizer vocabulary is.
#[derive(Debug)]
pub struct InputSection {
    pub vocab: String,
}

/// The `[labeler]` section: where the label encoders are.
#[derive(Debug)]
pub struct LabelerSection {
    pub labels: String,
}

/// The `[model]` section.
#[derive(Debug)]
pub struct ModelSection {
    pub parameters: String,
    pub pretrain_config: String,
    pub pretrain_type: PretrainModelType,
}

/// A tagger configuration.
#[derive(Debug)]
pub struct Config {
    pub input: InputSection,
    pub labeler: LabelerSection,
    pub model: ModelSection,
}

/// A file to read, and the format to read it in.
#[derive(Debug)]
pub struct FileRequest {
    pub model_type: PretrainModelType,
    pub path: String,
}

/// The directory part of `p`: what precedes its last `/`, or `None` where
/// it has none.
pub open spec fn dir_of(p: Seq<char>) -> Option<Seq<char>>
    decreases p.len(),
{
    if p.len() == 0 {
        None
    } else if p.last() == '/' {
        Some(p.drop_last())
    } else {
        dir_of(p.drop_last())
    }
}

/// `path` read relative to the directory `dir`: absolute paths and paths
/// with no directory to resolve against stay as they are.
pub open spec fn relative_to(dir: Option<Seq<char>>, path: Seq<char>) -> Seq<char> {
    if path.len() > 0 && path[0] == '/' {
        path
    } else {
        match dir {
            None => path,
            Some(d) => d + seq!['/'] + path,
        }
    }
}

/// The directory part of `p`.
fn dir_part(p: &str) -> (r: Option<String>)
    ensures
        r matches Some(d) ==> dir_of(p@) == Some(d@),
        r is None ==> dir_of(p@) is None,
{
    let n = p.unicode_len();
    let mut i: usize = n;
    assert(p@.subrange(0, n as int) =~= p@);
    while i > 0 && p.get_char(i - 1) != '/'
        invariant
            n == p@.len(),
            i <= n,
            dir_of(p@) == dir_of(p@.subrange(0, i as int)),
        decreases i,
    {
        proof {
            let s = p@.subrange(0, i as int);
            assert(s.drop_last() =~= p@.subrange(0, i - 1));
        }
        i = i - 1;
    }
    if i == 0 {
        proof {
            assert(p@.subrange(0, 0).len() == 0);
        }
        None
    } else {
        proof {
            let s = p@.subrange(0, i as int);
            assert(s.drop_last() =~= p@.subrange(0, i - 1));
        }
        Some(String::from_str(p.substring_char(0, i - 1)))
    }
}

/// `path` read relative to `dir`.
fn relativize(dir: &Option<String>, path: String) -> (r: String)
    ensures
        r@ == relative_to(
            match dir {
                Some(d) => Some(d@),
                None => None,
            },
            path@,
        ),
{
    let absolute = path.unicode_len() > 0 && path.as_str().get_char(0) == '/';
    if absolute {
        return path;
    }
    match dir {
        None => path,
        Some(d) => {
            let mut r = d.clone();
            let slash = "/";
            proof {
                reveal_strlit("/");
            }
            r.append(slash);
            r.append(path.as_str());
            r
        },
    }
}

/// A configuration, with the paths that it names read relative to the
/// directory of the file it came from.
#[derive(Debug)]
pub struct PyConfig {
    inner: Config,
}

impl PyConfig {
    pub closed spec fn config(&self) -> Config {
        self.inner
    }

    /// Takes `config`, read from the file at `config_path`, and resolves
    /// its relative paths against that file's directory.
    pub fn new(config: Config, config_path: &str) -> (r: PyConfig)
        ensures
            r.config().input.vocab@ == relative_to(dir_of(config_path@), config.input.vocab@),
            r.config().labeler.labels@ == relative_to(dir_of(config_path@), config.labeler.labels@),
            r.config().model.parameters@ == relative_to(dir_of(config_path@), config.model.parameters@),
            r.config().model.pretrain_config@ == relative_to(
                dir_of(config_path@),
                config.model.pretrain_config@,
            ),
            r.config().model.pretrain_type == config.model.pretrain_type,
    {
        let dir = dir_part(config_path);
        let Config { input, labeler, model } = config;
        let inner = Config {
            input: InputSection { vocab: relativize(&dir, input.vocab) },
            labeler: LabelerSection { labels: relativize(&dir, labeler.labels) },
            model: ModelSection {
                parameters: relativize(&dir, model.parameters),
                pretrain_config: relativize(&dir, model.pretrain_config),
                pretrain_type: model.pretrain_type,
            },
        };
        PyConfig { inner }
    }

    /// The configuration.
    pub fn as_ref(&self) -> (r: &Config)
        ensures
            *r == self.config(),
    {
        &self.inner
    }

    /// A view of the `[labeler]` section.
    pub fn get_labeler(&self) -> (r: PyLabeler<'_>)
        ensures
            r.config() == self.config(),
    {
        PyLabeler { config: &self.inner }
    }

    /// A view of the `[model]` section.
    pub fn get_model(&self) -> (r: PyModel<'_>)
        ensures
            r.config() == self.config(),
    {
        PyModel { config: &self.inner }
    }
}

/// A read-only view of the `[model]` section of a configuration.
pub struct PyModel<'a> {
    config: &'a Config,
}

impl<'a> PyModel<'a> {
    pub closed spec fn config(&self) -> Config {
        *self.config
    }

    /// Path of the model parameters.
    pub fn get_parameters(&self) -> (r: String)
        ensures
            r == self.config().model.parameters,
    {
        self.config.model.parameters.clone()
    }

    /// Path of the pretrained model's configuration.
    pub fn get_pretrain_config(&self) -> (r: String)
        ensures
            r == self.config().model.pretrain_config,
    {
        self.config.model.pretrain_config.clone()
    }
}

/// A read-only view of the `[labeler]` section of a configuration.
pub struct PyLabeler<'a> {
    config: &'a Config,
}

impl<'a> PyLabeler<'a> {
    pub closed spec fn config(&self) -> Config {
        *self.config
    }

    /// Path of the label file.
    pub fn get_labels(&self) -> (r: String)
        ensures
            r == self.config().labeler.labels,
    {
        self.config.labeler.labels.clone()
    }
}

/// Which file holds the pretrained model's configuration, and in which
/// format; a configuration error where the path is empty.
pub fn load_pretrain_config(config: &Config) -> (r: Result<FileRequest, AnnotateError>)
    ensures
        r is Ok <==> config.model.pretrain_config@.len() > 0,
        r matches Ok(req) ==> req.path == config.model.pretrain_config && req.model_type
            == config.model.pretrain_type,
        r matches Err(e) ==> e is Config,
{
    if config.model.pretrain_config.unicode_len() == 0 {
        return Err(AnnotateError::Config {
            message: String::from_str("Cannot load pretraining model configuration: no path given"),
        });
    }
    Ok(FileRequest { model_type: config.model.pretrain_type, path: config.model.pretrain_config.clone() })
}

/// Which file holds the tokenizer vocabulary, and in which format; a
/// configuration error where the path is empty.
pub fn load_tokenizer(config: &Config) -> (r: Result<FileRequest, AnnotateError>)
    ensures
        r is Ok <==> config.input.vocab@.len() > 0,
        r matches Ok(req) ==> req.path == config.input.vocab && req.model_type
            == config.model.pretrain_type,
        r matches Err(e) ==> e is Config,
{
    if config.input.vocab.unicode_len() == 0 {
        return Err(AnnotateError::Config {
            message: String::from_str("Cannot read tokenizer vocabulary: no path given"),
        });
    }
    Ok(FileRequest { model_type: config.model.pretrain_type, path: config.input.vocab.clone() })
}

} // verus!
