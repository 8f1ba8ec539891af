use vstd::prelude::*;

verus! {

/// The value that `pairs` gives to `key`: the last pair with that key wins.
pub open spec fn lookup(pairs: Seq<(Seq<char>, Seq<char>)>, key: Seq<char>) -> Option<Seq<char>>
    decreases pairs.len(),
{
    if pairs.len() == 0 {
        None
    } else if pairs.last().0 == key {
        Some(pairs.last().1)
    } else {
        lookup(pairs.drop_last(), key)
    }
}

/// The settings sent with each request to a backend.
///
/// Temperature and top-p are kept in thousandths: 1000 stands for 1.0.
#[derive(Clone, Debug)]
pub struct ModelConfig {
    pub name: String,
    pub temperature_milli: u32,
    pub top_p_milli: u32,
    pub max_output_token: usize,
    pub stream: bool,
    pub extend: Vec<(String, String)>,
}

impl ModelConfig {
    /// The provider-specific settings, in the order they were set.
    pub open spec fn extend_view(&self) -> Seq<(Seq<char>, Seq<char>)> {
        self.extend@.map_values(|p: (String, String)| (p.0@, p.1@))
    }

    pub fn set_temperature_milli(self, temperature_milli: u32) -> (r: ModelConfig)
        ensures
            r == (ModelConfig { temperature_milli, ..self }),
    {
        ModelConfig { temperature_milli, ..self }
    }

    pub fn set_name(self, name: String) -> (r: ModelConfig)
        ensures
            r == (ModelConfig { name, ..self }),
    {
        ModelConfig { name, ..self }
    }

    pub fn set_stream_mode(self, stream: bool) -> (r: ModelConfig)
        ensures
            r == (ModelConfig { stream, ..self }),
    {
        ModelConfig { stream, ..self }
    }

    /// Sets a provider-specific setting; a later value for a key replaces an earlier one.
    pub fn append_extend(self, k: String, v: String) -> (r: ModelConfig)
        ensures
            r.extend_view() == self.extend_view().push((k@, v@)),
            lookup(r.extend_view(), k@) == Some(v@),
            forall|other: Seq<char>| other != k@ ==> lookup(r.extend_view(), other) == lookup(self.extend_view(), other),
            r.name == self.name,
            r.temperature_milli == self.temperature_milli,
            r.top_p_milli == self.top_p_milli,
            r.max_output_token == self.max_output_token,
            r.stream == self.stream,
    {
        let mut cfg = self;
        let ghost before = cfg.extend_view();
        cfg.extend.push((k, v));
        assert(cfg.extend_view() =~= before.push((k@, v@)));
        assert(cfg.extend_view().drop_last() =~= before);
        cfg
    }

    /// The provider-specific setting for `key`, if any.
    pub fn extend_get(&self, key: &str) -> (r: Option<String>)
        ensures
            match r {
                Some(s) => lookup(self.extend_view(), key@) == Some(s@),
                None => lookup(self.extend_view(), key@) is None,
            },
    {
        let k = key.to_owned();
        let mut i: usize = self.extend.len();
        assert(self.extend_view().subrange(0, i as int) =~= self.extend_view());
        while i > 0
            invariant
                i <= self.extend@.len(),
                lookup(self.extend_view(), key@) == lookup(self.extend_view().subrange(0, i as int), key@),
                k@ == key@,
            decreases i,
        {
            let ghost sub = self.extend_view().subrange(0, i as int);
            assert(sub.drop_last() =~= self.extend_view().subrange(0, i - 1));
            if self.extend[i - 1].0 == k {
                return Some(self.extend[i - 1].1.clone());
            }
            i = i - 1;
        }
        assert(self.extend_view().subrange(0, 0) =~= Seq::<(Seq<char>, Seq<char>)>::empty());
        None
    }
}

/// The settings a new session starts with: no name, temperature 1.0, top-p
/// 0.9, 512 output tokens, streaming on, and no provider-specific settings.
pub open spec fn is_default_config(c: ModelConfig) -> bool {
    &&& c.name@ == Seq::<char>::empty()
    &&& c.temperature_milli == 1000
    &&& c.top_p_milli == 900
    &&& c.max_output_token == 512
    &&& c.stream
    &&& c.extend_view() == Seq::<(Seq<char>, Seq<char>)>::empty()
}

impl Default for ModelConfig {
    /// Temperature 1.0, top-p 0.9, 512 output tokens, streaming on, no name.
    fn default() -> (r: ModelConfig)
        ensures
            is_default_config(r),
    {
        let r = ModelConfig {
            name: String::new(),
            temperature_milli: 1000,
            top_p_milli: 900,
            max_output_token: 512,
            stream: true,
            extend: Vec::new(),
        };
        assert(r.extend_view() =~= Seq::<(Seq<char>, Seq<char>)>::empty());
        r
    }
}

} // verus!
