use nucleo::cli::{EventoAgente, Uso};
use nucleo::erro::Erro;
use nucleo::modelo::{EstadoSessao, PapelMensagem, TipoMensagem, MAX_SALTOS};
use nucleo::orquestrador::{
    evento_de_parada, linha_de_interrupcao, recusa_por_interrupcao, Entrega, Envio, Orquestrador, Pendencia,
};

fn sino() -> EventoAgente {
    EventoAgente::TurnoConcluido {
        texto_final: "pronto".into(),
        uso: Uso { tokens_entrada: 1, tokens_saida: 1, custo_usd: None },
    }
}

fn falha() -> EventoAgente {
    EventoAgente::Erro { mensagem: "caiu".into(), recuperavel: true }
}

fn turno_do_envio(r: Result<Envio, Erro>) -> Option<Pendencia> {
    match r {
        Ok(Envio::Fila { turno, .. }) => turno,
        outro => panic!("esperava fila, veio {outro:?}"),
    }
}

fn com_sessoes(nomes: &[&str]) -> Orquestrador {
    let mut o = Orquestrador::novo();
    for n in nomes {
        assert_eq!(o.abrir_sessao(n), EstadoSessao::Ocioso);
    }
    o
}

#[test]
fn mensagem_a_no_parado_comeca_o_turno_e_a_seguinte_espera_a_vez() {
    let mut o = com_sessoes(&["s1"]);
    let primeiro = turno_do_envio(o.enviar("s1", "  resuma o contrato  ")).expect("o nó estava parado");
    assert_eq!(primeiro.texto, "resuma o contrato");
    assert_eq!(primeiro.papel, PapelMensagem::Usuario);
    assert!(primeiro.quem_espera.is_none());
    assert_eq!(primeiro.trace.saltos, 0);
    assert_eq!(o.estado("s1"), Some(EstadoSessao::Pensando));
    assert_eq!(o.trace_de("s1").unwrap().id, primeiro.trace.id);

    // Um turno por vez: a segunda mensagem não começa nada.
    assert!(turno_do_envio(o.enviar("s1", "e a multa?")).is_none());
    assert!(turno_do_envio(o.enviar("s1", "e o prazo?")).is_none());

    // O sino libera o nó e o mais antigo da fila começa.
    let d = o.aplicar("s1", &sino());
    assert_eq!(d.estado, Some(EstadoSessao::Ocioso));
    assert_eq!(d.proximo.unwrap().texto, "e a multa?");
    assert_eq!(o.estado("s1"), Some(EstadoSessao::Pensando));
    let d = o.aplicar("s1", &sino());
    assert_eq!(d.proximo.unwrap().texto, "e o prazo?");
    let d = o.aplicar("s1", &sino());
    assert!(d.proximo.is_none());
    assert_eq!(o.estado("s1"), Some(EstadoSessao::Ocioso));
}

#[test]
fn mensagem_vazia_ou_a_sessao_que_nao_existe_e_recusada() {
    let mut o = com_sessoes(&["s1"]);
    assert!(matches!(o.enviar("s1", "  "), Err(Erro::Invalido(_))));
    match o.enviar("s9", "oi") {
        Err(Erro::NaoEncontrado { tipo, id }) => {
            assert_eq!(tipo, "sessão");
            assert_eq!(id, "s9");
        }
        outro => panic!("veio {outro:?}"),
    }
    assert_eq!(o.estado("s1"), Some(EstadoSessao::Ocioso));
}

#[test]
fn a_resposta_de_uma_pergunta_nao_vira_turno_novo() {
    let mut o = com_sessoes(&["s1"]);
    turno_do_envio(o.enviar("s1", "escreva o parecer")).unwrap();
    o.perguntar_humano("s1");
    assert_eq!(o.estado("s1"), Some(EstadoSessao::AguardandoHumano));
    match o.enviar("s1", " o de março ") {
        Ok(Envio::Resposta(t)) => assert_eq!(t, "o de março"),
        outro => panic!("veio {outro:?}"),
    }
    assert_eq!(o.estado("s1"), Some(EstadoSessao::Pensando));
    // Respondida, a próxima mensagem volta a ser turno (e espera a vez).
    assert!(turno_do_envio(o.enviar("s1", "obrigado")).is_none());
}

#[test]
fn pedido_entre_nos_espera_o_fim_do_turno_do_outro() {
    let mut o = com_sessoes(&["pesq", "red"]);
    turno_do_envio(o.enviar("pesq", "ache e mande redigir")).unwrap();
    let trace_do_usuario = o.trace_de("pesq").unwrap();
    match o.entregar("pesq", "red", "redija isto", "no-pesq", TipoMensagem::Pedido, false, "Redator") {
        Entrega::Entregue { trace, turno } => {
            assert_eq!(trace.id, trace_do_usuario.id);
            assert_eq!(trace.saltos, 1);
            let t = turno.expect("o redator estava parado");
            assert_eq!(t.texto, "redija isto");
            assert_eq!(t.papel, PapelMensagem::No);
            assert_eq!(t.origem_node.as_deref(), Some("no-pesq"));
            assert_eq!(t.quem_espera.as_deref(), Some("pesq"));
        }
        outro => panic!("veio {outro:?}"),
    }
    assert_eq!(o.estado("pesq"), Some(EstadoSessao::AguardandoNo));
    assert_eq!(o.estado("red"), Some(EstadoSessao::Pensando));

    // O redator termina: quem pediu recebe.
    let d = o.aplicar("red", &sino());
    assert_eq!(d.responder_a.as_deref(), Some("pesq"));
    o.soltar_espera("pesq");
    assert_eq!(o.estado("pesq"), Some(EstadoSessao::Pensando));
}

#[test]
fn aviso_entre_nos_nao_prende_quem_manda() {
    let mut o = com_sessoes(&["a"]);
    turno_do_envio(o.enviar("a", "avise o b")).unwrap();
    // O destino ainda não tinha sessão: ela é aberta na entrega.
    match o.entregar("a", "b", "fica sabendo", "no-a", TipoMensagem::Aviso, false, "B") {
        Entrega::Entregue { turno, .. } => assert!(turno.unwrap().quem_espera.is_none()),
        outro => panic!("veio {outro:?}"),
    }
    assert_eq!(o.estado("a"), Some(EstadoSessao::Pensando));
    assert_eq!(o.estado("b"), Some(EstadoSessao::Pensando));
    assert!(o.aplicar("b", &sino()).responder_a.is_none());
}

#[test]
fn pedir_de_volta_a_quem_espera_voce_e_recusado() {
    let mut o = com_sessoes(&["a", "b"]);
    turno_do_envio(o.enviar("a", "pergunte ao b")).unwrap();
    assert!(matches!(
        o.entregar("a", "b", "e aí?", "no-a", TipoMensagem::Pedido, false, "B"),
        Entrega::Entregue { .. }
    ));
    // b está pensando no pedido de a; pedir a a trava os dois.
    match o.entregar("b", "a", "e você?", "no-b", TipoMensagem::Pedido, false, "A") {
        Entrega::Recusada(Erro::Invalido(m)) => assert!(m.contains("\"A\" está parado esperando a SUA resposta")),
        outro => panic!("veio {outro:?}"),
    }
    // Um aviso não espera, e por isso passa.
    assert!(matches!(
        o.entregar("b", "a", "só avisando", "no-b", TipoMensagem::Aviso, false, "A"),
        Entrega::Entregue { .. }
    ));
    match o.entregar("a", "a", "oi", "no-a", TipoMensagem::Aviso, false, "A") {
        Entrega::Recusada(Erro::Invalido(m)) => assert_eq!(m, "um nó não fala consigo mesmo"),
        outro => panic!("veio {outro:?}"),
    }
}

#[test]
fn a_cadeia_para_no_teto_de_saltos_e_no_orcamento() {
    let mut o = com_sessoes(&["a", "b"]);
    turno_do_envio(o.enviar("a", "comece")).unwrap();
    // A cadeia anda de a para b e de volta, com avisos, até o teto.
    let mut de = "a";
    let mut para = "b";
    for salto in 1..=MAX_SALTOS {
        match o.entregar(de, para, "vai", "no", TipoMensagem::Aviso, false, "X") {
            Entrega::Entregue { trace, .. } => assert_eq!(trace.saltos, salto),
            outro => panic!("salto {salto}: veio {outro:?}"),
        }
        o.aplicar(de, &sino());
        std::mem::swap(&mut de, &mut para);
    }
    match o.entregar(de, para, "mais um", "no", TipoMensagem::Aviso, false, "X") {
        Entrega::Encerrada { motivo, recusa: Erro::Invalido(m), .. } => {
            assert_eq!(motivo, format!("a conversa entre nós passou de {MAX_SALTOS} saltos"));
            assert!(m.starts_with(&format!("esta cadeia já deu {MAX_SALTOS} saltos")));
        }
        outro => panic!("veio {outro:?}"),
    }

    let mut o = com_sessoes(&["a", "b"]);
    turno_do_envio(o.enviar("a", "comece")).unwrap();
    let id = o.trace_de("a").unwrap().id;
    match o.entregar("a", "b", "vai", "no", TipoMensagem::Pedido, true, "B") {
        Entrega::Encerrada { trace_id, motivo, .. } => {
            assert_eq!(trace_id, id);
            assert_eq!(motivo, "a conversa entre nós passou de US$ 1.00");
        }
        outro => panic!("veio {outro:?}"),
    }
    // Nada mudou: nem a sessão do destino foi aberta.
    assert_eq!(o.estado("a"), Some(EstadoSessao::Pensando));
    assert_eq!(o.estado("b"), Some(EstadoSessao::Ocioso));
}

#[test]
fn cancelar_solta_quem_espera_e_limpa_a_fila() {
    let mut o = com_sessoes(&["a", "b"]);
    turno_do_envio(o.enviar("a", "pergunte ao b")).unwrap();
    assert!(matches!(
        o.entregar("a", "b", "e aí?", "no-a", TipoMensagem::Pedido, false, "B"),
        Entrega::Entregue { .. }
    ));
    assert!(turno_do_envio(o.enviar("b", "depois isto")).is_none(), "b estava ocupado");

    let c = o.cancelar("b").unwrap();
    assert_eq!(c.responder_a.as_deref(), Some("a"), "quem pediu não pode ficar pendurado");
    assert!(c.interrompeu);
    assert_eq!(o.estado("b"), Some(EstadoSessao::Ocioso));
    // A fila foi junto: o sino de um turno que não existe mais não puxa nada.
    assert!(o.aplicar("b", &sino()).proximo.is_none());

    // Cancelar de novo não interrompe nada.
    let c = o.cancelar("b").unwrap();
    assert!(!c.interrompeu);
    assert!(c.responder_a.is_none());
    assert!(matches!(o.cancelar("zz"), Err(Erro::NaoEncontrado { .. })));
}

#[test]
fn cancelar_quem_esperava_solta_a_espera_dele() {
    let mut o = com_sessoes(&["a", "b"]);
    turno_do_envio(o.enviar("a", "pergunte ao b")).unwrap();
    assert!(matches!(
        o.entregar("a", "b", "e aí?", "no-a", TipoMensagem::Pedido, false, "B"),
        Entrega::Entregue { .. }
    ));
    let c = o.cancelar("a").unwrap();
    assert_eq!(c.soltar_de.as_deref(), Some("b"));
    assert!(c.interrompeu);
    assert_eq!(o.estado("a"), Some(EstadoSessao::Ocioso));
    // O turno de b segue, mas ninguém mais espera por ele.
    assert!(o.aplicar("b", &sino()).responder_a.is_none());
}

#[test]
fn erro_do_agente_deixa_o_no_em_erro_e_a_fila_anda() {
    let mut o = com_sessoes(&["s"]);
    turno_do_envio(o.enviar("s", "um")).unwrap();
    let d = o.aplicar("s", &falha());
    assert_eq!(d.estado, Some(EstadoSessao::Erro));
    assert!(d.proximo.is_none());
    assert_eq!(o.estado("s"), Some(EstadoSessao::Erro));
    // De erro se sai mandando outra mensagem.
    assert!(turno_do_envio(o.enviar("s", "de novo")).is_some());
    assert_eq!(o.estado("s"), Some(EstadoSessao::Pensando));

    // Eventos que não mudam estado não mudam nada.
    let d = o.aplicar("s", &EventoAgente::TextoParcial { delta: "oi".into() });
    assert!(d.estado.is_none() && d.proximo.is_none());
    // Sessão desconhecida também não.
    assert!(o.aplicar("zz", &sino()).estado.is_none());
    // O agente levantou a mão: espera o humano.
    let d = o.aplicar("s", &EventoAgente::PrecisaHumano { pergunta: "qual?".into() });
    assert_eq!(d.estado, Some(EstadoSessao::AguardandoHumano));
}

#[test]
fn o_barramento_so_existe_depois_de_ligado() {
    let mut o = Orquestrador::novo();
    assert!(o.url_barramento().is_none());
    o.ligar_barramento("http://127.0.0.1:4242");
    assert_eq!(o.url_barramento().as_deref(), Some("http://127.0.0.1:4242"));
}

#[test]
fn texto_parcial_vira_resposta_quando_o_final_vem_vazio() {
    let mut o = com_sessoes(&["s"]);
    turno_do_envio(o.enviar("s", "resuma")).unwrap();
    o.aplicar("s", &EventoAgente::TextoParcial { delta: "Li os três PDFs. ".into() });
    o.aplicar("s", &EventoAgente::TextoParcial { delta: "O item 4.2 contradiz o anexo I.".into() });
    let d = o.aplicar("s", &EventoAgente::TurnoConcluido { texto_final: String::new(), uso: Uso::default() });
    assert_eq!(d.estado, Some(EstadoSessao::Ocioso));
    assert_eq!(d.resposta.as_deref(), Some("Li os três PDFs. O item 4.2 contradiz o anexo I."));
}

#[test]
fn quem_pediu_recebe_o_texto_que_encerrou_o_turno_do_outro() {
    let mut o = com_sessoes(&["pesq", "red"]);
    turno_do_envio(o.enviar("pesq", "peça ao redator")).unwrap();
    match o.entregar("pesq", "red", "leia os PDFs", "no-pesq", TipoMensagem::Pedido, false, "Pesquisador") {
        Entrega::Entregue { .. } => {}
        outro => panic!("veio {outro:?}"),
    }
    let d = o.aplicar("red", &EventoAgente::TextoParcial { delta: "Li os três PDFs. ".into() });
    assert!(d.resposta.is_none() && d.estado.is_none());
    o.aplicar("red", &EventoAgente::TextoParcial { delta: "O item 4.2 contradiz o anexo I.".into() });
    let d = o.aplicar("red", &EventoAgente::TurnoConcluido { texto_final: "  ".into(), uso: Uso::default() });
    assert_eq!(d.responder_a.as_deref(), Some("pesq"));
    assert_eq!(d.resposta.as_deref(), Some("Li os três PDFs. O item 4.2 contradiz o anexo I."));

    // O turno seguinte começa do zero, e um texto final de verdade vale.
    turno_do_envio(o.enviar("red", "e agora?")).unwrap();
    o.aplicar("red", &EventoAgente::TextoParcial { delta: "rascunho".into() });
    assert_eq!(o.aplicar("red", &sino()).resposta.as_deref(), Some("pronto"));
    turno_do_envio(o.enviar("red", "mais uma")).unwrap();
    let d = o.aplicar("red", &EventoAgente::TurnoConcluido { texto_final: String::new(), uso: Uso::default() });
    assert_eq!(d.resposta.as_deref(), Some(""));
}

#[test]
fn adaptador_que_cala_no_meio_deixa_o_no_em_erro_e_nao_pensando() {
    let mut o = com_sessoes(&["s"]);
    turno_do_envio(o.enviar("s", "oi")).unwrap();
    let parada = evento_de_parada();
    match &parada {
        EventoAgente::Erro { mensagem, .. } => {
            assert_eq!(mensagem, "O agente parou de responder no meio do turno.")
        }
        outro => panic!("veio {outro:?}"),
    }
    o.aplicar("s", &EventoAgente::TextoParcial { delta: "começando…".into() });
    let d = o.aplicar("s", &parada);
    assert_eq!(d.estado, Some(EstadoSessao::Erro));
    assert!(d.resposta.is_none());
    assert_eq!(o.estado("s"), Some(EstadoSessao::Erro));
    assert!(o.estado("s").unwrap().pede_atencao());
}

#[test]
fn cancelar_duas_vezes_nao_estraga_nada() {
    let mut o = com_sessoes(&["s"]);
    o.cancelar("s").unwrap();
    o.cancelar("s").unwrap();
    assert_eq!(o.estado("s"), Some(EstadoSessao::Ocioso));
    turno_do_envio(o.enviar("s", "oi")).unwrap();
    assert!(o.cancelar("s").unwrap().interrompeu);
    assert!(!o.cancelar("s").unwrap().interrompeu);
    assert_eq!(o.estado("s"), Some(EstadoSessao::Ocioso));
}

#[test]
fn cancelar_avisa_quem_esperava_que_o_turno_foi_interrompido() {
    assert_eq!(recusa_por_interrupcao().mensagem(), "o turno foi interrompido");
    assert_eq!(linha_de_interrupcao(), "Turno interrompido por você.");
    let mut o = com_sessoes(&["s"]);
    turno_do_envio(o.enviar("s", "oi")).unwrap();
    o.aplicar("s", &EventoAgente::TextoParcial { delta: "meio".into() });
    o.cancelar("s").unwrap();
    // O que se juntou no turno cancelado não vaza para o seguinte.
    turno_do_envio(o.enviar("s", "de novo")).unwrap();
    let d = o.aplicar("s", &EventoAgente::TurnoConcluido { texto_final: String::new(), uso: Uso::default() });
    assert_eq!(d.resposta.as_deref(), Some(""));
}

#[test]
fn o_card_faz_o_no_pedir_atencao_e_o_clique_devolve_ao_turno() {
    let mut o = com_sessoes(&["s"]);
    // Parado, não há turno para esperar card.
    assert!(!o.mudar_estado("s", EstadoSessao::AguardandoAprovacao));
    turno_do_envio(o.enviar("s", "grave o relatório")).unwrap();
    assert!(o.mudar_estado("s", EstadoSessao::AguardandoAprovacao));
    assert!(o.estado("s").unwrap().pede_atencao());
    assert!(o.mudar_estado("s", EstadoSessao::Pensando));
    assert_eq!(o.estado("s"), Some(EstadoSessao::Pensando));
    assert!(!o.mudar_estado("zz", EstadoSessao::Pensando));
}
