use vstd::prelude::*;
use vstd::string::*;
use crate::agent::SingleAgent;
use crate::config::ModelConfig;
use crate::stream::ChatRespStream;

verus! {

/// The layout a front end shows a session in.
#[derive(PartialEq, Eq, Structural, Clone, Copy, Debug)]
pub enum WindowMode {
    CHAT,
    FLOATING,
    ADSORB,
}

impl Default for WindowMode {
    fn default() -> (r: WindowMode)
        ensures
            r == WindowMode::CHAT,
    {
        WindowMode::CHAT
    }
}

/// What a front end keeps between frames: the layout shown now and at the
/// last frame, the session, the live view of its turn, and the text shown for it.
pub struct MemoryConfig {
    pub window_mode: WindowMode,
    pub last_window_mode: WindowMode,
    pub assistant: SingleAgent,
    pub chat_stream_resp: Option<ChatRespStream>,
    pub assistant_msg: String,
}

impl Default for MemoryConfig {
    /// The chat layout, with a session for the "qwen-turbo" model and a short
    /// system prompt.
    fn default() -> (r: MemoryConfig)
        ensures
            r.window_mode == WindowMode::CHAT,
            r.last_window_mode == WindowMode::CHAT,
            r.chat_stream_resp is None,
            r.assistant_msg@ == Seq::<char>::empty(),
            r.assistant.config_view().name@ == "qwen-turbo"@,
            r.assistant.prompt_view() == "## ROLE: you are a ai assistant."@,
    {
        let cfg = ModelConfig::default().set_name("qwen-turbo".to_owned());
        let assistant = SingleAgent::new().cove_model_config(cfg).set_prompt(
            "## ROLE: you are a ai assistant.".to_owned(),
        );
        MemoryConfig {
            window_mode: WindowMode::CHAT,
            last_window_mode: WindowMode::CHAT,
            assistant,
            chat_stream_resp: None,
            assistant_msg: String::new(),
        }
    }
}

impl MemoryConfig {
    /// Whether the layout changed since the last call; the change is then recorded.
    pub fn check_window_mode_change(&mut self) -> (r: bool)
        ensures
            r == (old(self).window_mode != old(self).last_window_mode),
            final(self).window_mode == old(self).window_mode,
            final(self).last_window_mode == old(self).window_mode,
    {
        let result = self.window_mode != self.last_window_mode;
        if result {
            self.last_window_mode = self.window_mode;
        }
        result
    }

    /// Whether the layout shown is `mode`.
    pub fn check_window_mode(&mut self, mode: WindowMode) -> (r: bool)
        ensures
            r == (old(self).window_mode == mode),
            *final(self) == *old(self),
    {
        self.window_mode == mode
    }

    /// Switches to the chat layout.
    pub fn chat_window_mode_to_chat(&mut self)
        ensures
            final(self).window_mode == WindowMode::CHAT,
            final(self).last_window_mode == old(self).window_mode,
    {
        self.last_window_mode = self.window_mode;
        self.window_mode = WindowMode::CHAT;
    }

    /// Switches to the floating layout.
    pub fn chat_window_mode_to_floating(&mut self)
        ensures
            final(self).window_mode == WindowMode::FLOATING,
            final(self).last_window_mode == old(self).window_mode,
    {
        self.last_window_mode = self.window_mode;
        self.window_mode = WindowMode::FLOATING;
    }

    /// Switches to the layout docked at a screen edge.
    pub fn chat_window_mode_to_adsorb(&mut self)
        ensures
            final(self).window_mode == WindowMode::ADSORB,
            final(self).last_window_mode == old(self).window_mode,
    {
        self.last_window_mode = self.window_mode;
        self.window_mode = WindowMode::ADSORB;
    }

    /// Passes the session through `handle`.
    pub fn set_assistant<F: FnOnce(SingleAgent) -> SingleAgent>(&mut self, handle: F)
        requires
            forall|a: SingleAgent| call_requires(handle, (a,)),
        ensures
            call_ensures(handle, (old(self).assistant,), final(self).assistant),
            final(self).window_mode == old(self).window_mode,
            final(self).last_window_mode == old(self).last_window_mode,
    {
        let mut current = SingleAgent::new();
        std::mem::swap(&mut current, &mut self.assistant);
        let mut next = handle(current);
        std::mem::swap(&mut next, &mut self.assistant);
    }
}

} // verus!
